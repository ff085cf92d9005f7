//! The errors that a user's input can cause, and the texts they are shown
//! as.

use vstd::prelude::*;
use vstd::string::StringExecFns;

verus! {

/// What is wrong with what the user asked for.
#[derive(Clone, Debug, PartialEq, Eq)]
pub enum RedshiftError {
    /// An argument on the command line cannot be read; the text says which.
    MalformedArgument(String),
    /// An entry of the configuration cannot be read; the text says which.
    MalformedConfig(String),
    /// No gamma method of this name exists, or none could be started.
    GammaMethodNotFound(String),
}

/// An error with its text as a sequence of characters.
#[verifier::ext_equal]
pub enum ErrorView {
    MalformedArgument(Seq<char>),
    MalformedConfig(Seq<char>),
    GammaMethodNotFound(Seq<char>),
}

impl View for RedshiftError {
    type V = ErrorView;

    open spec fn view(&self) -> ErrorView {
        match *self {
            RedshiftError::MalformedArgument(msg) => ErrorView::MalformedArgument(msg@),
            RedshiftError::MalformedConfig(msg) => ErrorView::MalformedConfig(msg@),
            RedshiftError::GammaMethodNotFound(name) => ErrorView::GammaMethodNotFound(name@),
        }
    }
}

/// The text that `error` is shown as.
pub open spec fn error_text(error: ErrorView) -> Seq<char> {
    match error {
        ErrorView::MalformedArgument(msg) => "malformed argument: "@ + msg,
        ErrorView::MalformedConfig(msg) => "malformed configuration: "@ + msg,
        ErrorView::GammaMethodNotFound(name) => "gamma method '"@ + name + "' not found"@,
    }
}

/// Whether `out` is what `want` asks for: the same value, or an error of the
/// same kind and text.
pub open spec fn agrees<T>(out: Result<T, RedshiftError>, want: Result<T, ErrorView>) -> bool {
    match want {
        Ok(value) => out == Ok::<T, RedshiftError>(value),
        Err(error) => out matches Err(e) && e@ == error,
    }
}

/// A value, or the text of a malformed argument.
pub open spec fn as_argument<T>(want: Result<T, Seq<char>>) -> Result<T, ErrorView> {
    match want {
        Ok(value) => Ok(value),
        Err(msg) => Err(ErrorView::MalformedArgument(msg)),
    }
}

impl RedshiftError {
    /// The text that the error is shown as: what kind of input was wrong,
    /// then the error's own text.
    pub fn message(&self) -> (out: String)
        ensures
            out@ == error_text(self@),
    {
        match self {
            RedshiftError::MalformedArgument(msg) => {
                let mut text = String::from_str("malformed argument: ");
                text.append(msg.as_str());
                text
            },
            RedshiftError::MalformedConfig(msg) => {
                let mut text = String::from_str("malformed configuration: ");
                text.append(msg.as_str());
                text
            },
            RedshiftError::GammaMethodNotFound(name) => {
                let mut text = String::from_str("gamma method '");
                text.append(name.as_str());
                text.append("' not found");
                text
            },
        }
    }

    /// A short name for every error of this type.
    pub fn description(&self) -> (out: &'static str)
        ensures
            out@ == "redshift error"@,
    {
        "redshift error"
    }
}

/// Fails with a malformed argument of the text `msg`.
pub fn malformed<T>(msg: String) -> (out: Result<T, RedshiftError>)
    ensures
        out == Err::<T, RedshiftError>(RedshiftError::MalformedArgument(msg)),
        out matches Err(e) && e@ == ErrorView::MalformedArgument(msg@),
{
    Err(RedshiftError::MalformedArgument(msg))
}

/// Fails with a malformed configuration of the text `msg`.
pub fn malformed_config<T>(msg: String) -> (out: Result<T, RedshiftError>)
    ensures
        out == Err::<T, RedshiftError>(RedshiftError::MalformedConfig(msg)),
        out matches Err(e) && e@ == ErrorView::MalformedConfig(msg@),
{
    Err(RedshiftError::MalformedConfig(msg))
}

} // verus!

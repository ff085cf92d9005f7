//! Gamma methods: the ways in which a display's colours can be adjusted, the
//! table that names them, and the method that adjusts nothing.

use vstd::prelude::*;
use crate::error::{ErrorView, RedshiftError};
use crate::gamma_randr::RandrError;
use crate::text::same_text;
use crate::transition::ColorSetting;
use vstd::string::StringExecFns;

verus! {

/// How a backend failed.
#[derive(Clone, Copy, Debug, PartialEq, Eq, Structural)]
pub enum BackendError {
    /// The backend could not be started: the display cannot be reached or
    /// does not speak the protocol. Nothing was applied.
    BackendUnavailable(RandrError),
    /// The backend refused a setting or a restore.
    BackendWriteFailure(RandrError),
}

impl BackendError {
    /// What went wrong in the backend.
    pub open spec fn cause(self) -> RandrError {
        match self {
            BackendError::BackendUnavailable(e) => e,
            BackendError::BackendWriteFailure(e) => e,
        }
    }

    /// The text that the error is shown as: that of its cause.
    pub fn message(&self) -> (out: String)
        ensures
            out@ == crate::gamma_randr::randr_error_text(self.cause()),
    {
        match self {
            BackendError::BackendUnavailable(e) => e.message(),
            BackendError::BackendWriteFailure(e) => e.message(),
        }
    }
}

/// The gamma methods that exist.
#[derive(Clone, Copy, Debug, PartialEq, Eq, Structural)]
pub enum MethodKind {
    /// Adjusts the ramps of every output through RandR.
    Randr,
    /// Adjusts nothing.
    Dummy,
}

/// Any gamma method provider implements this trait.
pub trait GammaMethod {
    /// Whether the method is one that adjusts nothing: it leaves the
    /// display alone whatever it is asked. A method is taken to adjust the
    /// display unless it says here that it does not.
    open spec fn adjusts_nothing(&self) -> bool {
        false
    }

    /// Makes the method ready; called once, before `set_temperature`.
    fn start(&mut self) -> (out: Result<(), BackendError>);

    /// Uses the given colour setting to adjust the screen.
    fn set_temperature(&mut self, setting: &ColorSetting) -> (out: Result<(), BackendError>);

    /// Puts the screen back as it was when the method started.
    fn restore(&self) -> (out: Result<(), BackendError>);
}

/// A gamma method provider can make a new gamma method.
pub trait GammaMethodProvider {
    fn init(&self) -> (out: Result<Box<dyn GammaMethod>, BackendError>);
}

/// The method that adjusts nothing: every operation succeeds and leaves the
/// display alone.
#[derive(Clone, Copy, Debug, PartialEq, Eq, Structural)]
pub struct DummyMethod;

impl GammaMethod for DummyMethod {
    open spec fn adjusts_nothing(&self) -> bool {
        true
    }

    fn start(&mut self) -> (out: Result<(), BackendError>)
        ensures
            out.is_ok(),
    {
        Ok(())
    }

    fn set_temperature(&mut self, setting: &ColorSetting) -> (out: Result<(), BackendError>)
        ensures
            out.is_ok(),
    {
        Ok(())
    }

    fn restore(&self) -> (out: Result<(), BackendError>)
        ensures
            out.is_ok(),
    {
        Ok(())
    }
}

impl GammaMethodProvider for DummyMethod {
    /// Makes the dummy method, which cannot fail: a method always comes
    /// out, and it is one that adjusts nothing.
    fn init(&self) -> (out: Result<Box<dyn GammaMethod>, BackendError>)
        ensures
            out.is_ok(),
            out matches Ok(method) && method.adjusts_nothing(),
    {
        Ok(Box::new(DummyMethod))
    }
}

/// The name of each method.
pub open spec fn name_of(kind: MethodKind) -> Seq<char> {
    match kind {
        MethodKind::Randr => "randr"@,
        MethodKind::Dummy => "dummy"@,
    }
}

/// The method of the name `name`, if one has it.
pub open spec fn kind_named(name: Seq<char>) -> Option<MethodKind> {
    if name == "randr"@ {
        Some(MethodKind::Randr)
    } else if name == "dummy"@ {
        Some(MethodKind::Dummy)
    } else {
        None
    }
}

/// The methods in the order in which they are tried.
pub open spec fn supported() -> Seq<MethodKind> {
    seq![MethodKind::Randr, MethodKind::Dummy]
}

/// The methods of `kinds` that adjust something, in their order: all but
/// the dummy.
pub open spec fn real_methods(kinds: Seq<MethodKind>) -> Seq<MethodKind>
    decreases kinds.len(),
{
    if kinds.len() == 0 {
        Seq::empty()
    } else if kinds.last() == MethodKind::Dummy {
        real_methods(kinds.drop_last())
    } else {
        real_methods(kinds.drop_last()).push(kinds.last())
    }
}

/// The place of the first `true` in `started`, if there is one.
pub open spec fn first_started(started: Seq<bool>) -> Option<int> {
    if exists|i: int| 0 <= i < started.len() && started[i] {
        Some(
            choose|i: int|
                0 <= i < started.len() && started[i] && forall|j: int| 0 <= j < i ==> !started[j],
        )
    } else {
        None
    }
}

impl MethodKind {
    /// The method's name.
    pub fn name(&self) -> (out: &'static str)
        ensures
            out@ == name_of(*self),
    {
        match self {
            MethodKind::Randr => "randr",
            MethodKind::Dummy => "dummy",
        }
    }
}

/// Adds the RandR method to a table of methods.
pub fn add_randr_method(methods: &mut Vec<MethodKind>)
    ensures
        final(methods)@ == old(methods)@.push(MethodKind::Randr),
{
    methods.push(MethodKind::Randr);
}

/// The table of the methods that exist: RandR first, the dummy last.
pub fn supported_gamma_methods() -> (out: Vec<MethodKind>)
    ensures
        out@ == supported(),
{
    let mut methods: Vec<MethodKind> = Vec::new();
    add_randr_method(&mut methods);
    methods.push(MethodKind::Dummy);
    assert(methods@ =~= supported());
    methods
}

/// The dummy method, ready to be used.
pub fn init_dummy() -> (out: DummyMethod)
    ensures
        out == DummyMethod,
{
    DummyMethod
}

/// The method of the name `method_name`, if one has it.
pub fn method_named(method_name: &str) -> (out: Option<MethodKind>)
    ensures
        out == kind_named(method_name@),
{
    if same_text(method_name, "randr") {
        Some(MethodKind::Randr)
    } else if same_text(method_name, "dummy") {
        Some(MethodKind::Dummy)
    } else {
        None
    }
}

/// Tells whether a method of the name `method_name` exists.
pub fn is_method_available(method_name: &str) -> (out: bool)
    ensures
        out == kind_named(method_name@).is_some(),
        out == (method_name@ == "randr"@ || method_name@ == "dummy"@),
{
    method_named(method_name).is_some()
}

/// The methods to try, in order, for a request.
///
/// Where a method is asked for by name, it is that method alone; the name
/// must be one of a method that exists. Where none is asked for, it is every
/// method of the table but the dummy, in the table's order.
pub fn init_gamma_method(method_name: Option<&str>) -> (out: Vec<MethodKind>)
    requires
        method_name.is_some() ==> kind_named(method_name.unwrap()@).is_some(),
    ensures
        method_name.is_some() ==> out@ == seq![kind_named(method_name.unwrap()@).unwrap()],
        method_name.is_none() ==> out@ == real_methods(supported()),
        method_name.is_none() ==> out@ == seq![MethodKind::Randr],
{
    let mut candidates: Vec<MethodKind> = Vec::new();
    match method_name {
        Some(name) => {
            let kind = method_named(name);
            candidates.push(kind.unwrap());
            assert(candidates@ =~= seq![kind_named(name@).unwrap()]);
        },
        None => {
            let methods = supported_gamma_methods();
            let mut i: usize = 0;
            while i < methods.len()
                invariant
                    i <= methods.len(),
                    methods@ == supported(),
                    candidates@ == real_methods(methods@.subrange(0, i as int)),
                decreases methods.len() - i,
            {
                let kind = methods[i];
                proof {
                    let next = methods@.subrange(0, i + 1);
                    assert(next.drop_last() =~= methods@.subrange(0, i as int));
                    assert(next.last() == methods@[i as int]);
                }
                match kind {
                    MethodKind::Dummy => {},
                    _ => {
                        candidates.push(kind);
                    },
                }
                i = i + 1;
            }
            proof {
                assert(methods@.subrange(0, methods@.len() as int) =~= methods@);
                lemma_real_methods_supported();
            }
        },
    }
    candidates
}

/// Of the methods that exist, RandR alone adjusts something.
pub proof fn lemma_real_methods_supported()
    ensures
        real_methods(supported()) == seq![MethodKind::Randr],
{
    let all = supported();
    let one = all.drop_last();
    assert(one =~= seq![MethodKind::Randr]);
    assert(one.drop_last() =~= Seq::<MethodKind>::empty());
    assert(real_methods(one.drop_last()) =~= Seq::<MethodKind>::empty());
    assert(real_methods(one) =~= seq![MethodKind::Randr]);
    assert(real_methods(all) =~= seq![MethodKind::Randr]);
}

/// The method that was started: the first of `candidates` that `started`
/// marks, where `started[i]` says whether the `i`th candidate could be
/// started. Where none could, the error is that the method `None` was not
/// found.
pub fn select_gamma_method(candidates: &Vec<MethodKind>, started: &Vec<bool>) -> (out: Result<
    MethodKind,
    RedshiftError,
>)
    requires
        started@.len() == candidates@.len(),
    ensures
        out.is_ok() == first_started(started@).is_some(),
        out.is_ok() ==> out.unwrap() == candidates@[first_started(started@).unwrap()],
        out.is_ok() ==> started@[first_started(started@).unwrap()] && forall|j: int|
            0 <= j < first_started(started@).unwrap() ==> !started@[j],
        out.is_err() ==> out.unwrap_err()@ == ErrorView::GammaMethodNotFound("None"@),
{
    let mut i: usize = 0;
    while i < started.len()
        invariant
            i <= started.len(),
            started@.len() == candidates@.len(),
            forall|j: int| 0 <= j < i ==> !started@[j],
        decreases started.len() - i,
    {
        if started[i] {
            proof {
                lemma_first_started(started@, i as int);
            }
            return Ok(candidates[i]);
        }
        i = i + 1;
    }
    Err(RedshiftError::GammaMethodNotFound(String::from_str("None")))
}

/// The first marked place is the one before which nothing is marked.
pub proof fn lemma_first_started(started: Seq<bool>, first: int)
    requires
        0 <= first < started.len(),
        started[first],
        forall|j: int| 0 <= j < first ==> !started[j],
    ensures
        first_started(started) == Some(first),
{
    let found = choose|i: int|
        0 <= i < started.len() && started[i] && forall|j: int| 0 <= j < i ==> !started[j];
    assert(found == first) by {
        if found < first {
            assert(!started[found]);
        }
        if first < found {
            assert(!started[first]);
        }
    }
}

} // verus!

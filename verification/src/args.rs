//! What the user asked for: the texts given on the command line and in the
//! configuration, read into settings, and the plan that follows from them.
//!
//! Reading the command line and the configuration file themselves is left to
//! the caller, which hands in the texts it found.

use vstd::prelude::*;
use vstd::string::StringExecFns;
use crate::colorramp::{MAX_GAMMA, MAX_TEMP, MIN_GAMMA, MIN_TEMP};
use crate::error::{agrees, as_argument, malformed, malformed_config, ErrorView, RedshiftError};
use crate::gamma::{is_method_available, kind_named};
use crate::location::{location_of, Location};
use crate::number::{
    decimal_text, i32_text, micro_text, parse_decimal, parse_i32, render_int, render_micro,
    whole_text, DecimalError, IntError,
};
use crate::text::{
    has_piece, join, lemma_no_later_piece, lemma_piece, part_of, part_of_text, piece, same_text,
    split_colons,
};
use crate::transition::{ColorSetting, Period, Rgb, TransitionScheme};

verus! {

/// Colour temperature by day, in Kelvin, where none is given.
pub const DEFAULT_DAY_TEMP: i32 = 5500;

/// Colour temperature by night, in Kelvin, where none is given.
pub const DEFAULT_NIGHT_TEMP: i32 = 3500;

/// Brightness where none is given: one.
pub const DEFAULT_BRIGHTNESS: i64 = 1_000_000;

/// Gamma correction where none is given: one.
pub const DEFAULT_GAMMA: i64 = 1_000_000;

/// Selected run mode.
#[derive(Clone, Copy, Debug, PartialEq, Eq, Structural)]
pub enum Mode {
    /// Run the colour adjustment method once and exit.
    OneShot,
    /// Continually run the colour adjustment; the default.
    Continual,
    /// Reset the screen.
    Reset,
    /// Print parameters only and exit.
    Print,
    /// One shot manual mode: set this colour temperature.
    Manual(i32),
}

/// What the program was asked to do.
#[derive(Debug, PartialEq, Eq)]
pub struct Args {
    pub verbose: bool,
    /// Brightness by day and by night, in millionths.
    pub brightness: (i64, i64),
    /// Gamma correction of red, green and blue, in millionths.
    pub gamma: (i64, i64, i64),
    pub location: Location,
    pub method: Option<String>,
    /// Colour temperature by day and by night.
    pub temperatures: (i32, i32),
    pub transition: bool,
    pub mode: Mode,
}

/// What was found on the command line: the text of each option that takes
/// a value and was given, and whether each flag was given.
#[derive(Clone, Debug, PartialEq, Eq)]
pub struct Matches {
    pub brightness: Option<String>,
    pub temperature: Option<String>,
    pub gamma: Option<String>,
    pub print: bool,
    pub oneshot: bool,
    pub oneshot_manual: Option<String>,
    pub reset: bool,
    pub location: Option<String>,
    pub method: Option<String>,
    pub verbose: bool,
    pub no_transition: bool,
}

/// What was found in the configuration file: whether it has the section
/// `redshift`, the text of each of that section's keys that is set, and
/// latitude and longitude of the section `manual`.
#[derive(Clone, Debug, PartialEq, Eq)]
pub struct Config {
    pub has_section: bool,
    pub brightness_day: Option<String>,
    pub brightness_night: Option<String>,
    pub temp_day: Option<String>,
    pub temp_night: Option<String>,
    pub gamma: Option<String>,
    pub transition: Option<String>,
    pub location_provider: Option<String>,
    pub manual_lat: Option<String>,
    pub manual_lon: Option<String>,
    pub adjustment_method: Option<String>,
}

/// What was computed for the moment, to be shown to the user.
#[derive(Clone, Copy, Debug, PartialEq, Eq, Structural)]
pub struct Report {
    pub elevation: i64,
    pub period: Period,
    pub setting: ColorSetting,
}

/// What is to be done for the arguments, in this order: show the report,
/// apply the setting once, run the loop with the scheme.
#[derive(Clone, Copy, Debug, PartialEq, Eq)]
pub struct Plan {
    pub report: Option<Report>,
    pub apply: Option<ColorSetting>,
    pub continual: Option<TransitionScheme>,
}

/// The temperatures that a text of the form `DAY:NIGHT` stands for, or the
/// text that says what is wrong with it: a part that is no whole number, a
/// night that is missing, or something after the night.
pub open spec fn temperature_of(s: Seq<char>) -> Result<(i32, i32), Seq<char>> {
    if i32_text(piece(s, 0)).is_err() {
        Err(part_of_text("temperature argument: "@, piece(s, 0), s))
    } else if !has_piece(s, 1) {
        Err("temperature argument: "@ + s)
    } else if i32_text(piece(s, 1)).is_err() {
        Err(part_of_text("temperature argument: "@, piece(s, 1), s))
    } else if has_piece(s, 2) {
        Err("temperature argument: "@ + s)
    } else {
        Ok((i32_text(piece(s, 0)).unwrap(), i32_text(piece(s, 1)).unwrap()))
    }
}

/// The brightness by day and by night that a text of the form `DAY:NIGHT`
/// or `BOTH` stands for, or the text that says what is wrong with it.
pub open spec fn brightness_of(s: Seq<char>) -> Result<(i64, i64), Seq<char>> {
    if decimal_text(piece(s, 0)).is_err() {
        Err(part_of_text("brightness: "@, piece(s, 0), s))
    } else if !has_piece(s, 1) {
        Ok((decimal_text(piece(s, 0)).unwrap(), decimal_text(piece(s, 0)).unwrap()))
    } else if decimal_text(piece(s, 1)).is_err() {
        Err(part_of_text("brightness: "@, piece(s, 1), s))
    } else if has_piece(s, 2) {
        Err(part_of_text("brightness: trailing "@, piece(s, 2), s))
    } else {
        Ok((decimal_text(piece(s, 0)).unwrap(), decimal_text(piece(s, 1)).unwrap()))
    }
}

/// Whether a gamma correction can be applied.
pub open spec fn gamma_ok(value: i64) -> bool {
    MIN_GAMMA <= value <= MAX_GAMMA
}

/// The text that says that a gamma correction cannot be applied.
pub open spec fn gamma_range_text(value: i64) -> Seq<char> {
    "Gamma value must be between "@ + micro_text(MIN_GAMMA as int) + " and "@ + micro_text(
        MAX_GAMMA as int,
    ) + ". Was "@ + micro_text(value as int)
}

/// One part of a gamma text as a gamma correction, or what is wrong with
/// it.
pub open spec fn gamma_part(part: Seq<char>, s: Seq<char>) -> Result<i64, Seq<char>> {
    match decimal_text(part) {
        Err(_) => Err(part_of_text("gamma: "@, part, s)),
        Ok(value) => if gamma_ok(value) {
            Ok(value)
        } else {
            Err(gamma_range_text(value))
        },
    }
}

/// The gamma corrections that a text of the form `R:G:B` or `ALL` stands
/// for, or the text that says what is wrong with it. What follows a third
/// part is not read.
pub open spec fn gamma_of(s: Seq<char>) -> Result<(i64, i64, i64), Seq<char>> {
    match gamma_part(piece(s, 0), s) {
        Err(msg) => Err(msg),
        Ok(red) => if !has_piece(s, 1) {
            Ok((red, red, red))
        } else {
            match gamma_part(piece(s, 1), s) {
                Err(msg) => Err(msg),
                Ok(green) => if !has_piece(s, 2) {
                    Err(part_of_text("gamma: "@, piece(s, 1), s))
                } else {
                    match gamma_part(piece(s, 2), s) {
                        Err(msg) => Err(msg),
                        Ok(blue) => Ok((red, green, blue)),
                    }
                },
            }
        },
    }
}

/// The text that says why a text is no whole number.
pub open spec fn int_error_text(error: IntError) -> Seq<char> {
    match error {
        IntError::Empty => "cannot parse integer from empty string"@,
        IntError::InvalidDigit => "invalid digit found in string"@,
        IntError::PosOverflow => "number too large to fit in target type"@,
        IntError::NegOverflow => "number too small to fit in target type"@,
    }
}

/// The text that says why a text is no decimal.
pub open spec fn decimal_error_text(error: DecimalError) -> Seq<char> {
    match error {
        DecimalError::Empty => "cannot parse float from empty string"@,
        DecimalError::Invalid => "invalid float literal"@,
    }
}

/// The text that says that a temperature cannot be applied.
pub open spec fn temperature_range_text(temp: i32) -> Seq<char> {
    "Temperature must be between "@ + whole_text(MIN_TEMP as int) + " and "@ + whole_text(
        MAX_TEMP as int,
    ) + " (was "@ + whole_text(temp as int) + ")"@
}

/// The temperature of the manual mode that a text stands for, or what is
/// wrong with it: it is no whole number, or the number lies outside the
/// range of temperatures.
pub open spec fn manual_of(s: Seq<char>) -> Result<i32, Seq<char>> {
    match i32_text(s) {
        Err(e) => Err(int_error_text(e)),
        Ok(temp) => if temp < MIN_TEMP || temp > MAX_TEMP {
            Err(temperature_range_text(temp))
        } else {
            Ok(temp)
        },
    }
}

/// The mode that the command line asks for: print before one shot before
/// manual before reset; where none is asked for, the mode stays.
pub open spec fn mode_of(mode: Mode, m: Matches) -> Result<Mode, Seq<char>> {
    if m.print {
        Ok(Mode::Print)
    } else if m.oneshot {
        Ok(Mode::OneShot)
    } else if m.oneshot_manual.is_some() {
        match manual_of(m.oneshot_manual.unwrap()@) {
            Ok(temp) => Ok(Mode::Manual(temp)),
            Err(msg) => Err(msg),
        }
    } else if m.reset {
        Ok(Mode::Reset)
    } else {
        Ok(mode)
    }
}

/// The method that a name stands for, or the error that none exists.
pub open spec fn method_of(name: String) -> Result<String, ErrorView> {
    if kind_named(name@).is_some() {
        Ok(name)
    } else {
        Err(ErrorView::GammaMethodNotFound(name@))
    }
}

/// The arguments after the command line was read: each option that was
/// given replaces what stood before, in the order brightness, temperature,
/// gamma, mode, location, method; the first that cannot be read decides the
/// error. The two flags always replace what stood before.
pub open spec fn after_matches(args: Args, m: Matches) -> Result<Args, ErrorView> {
    let brightness = if m.brightness.is_some() {
        as_argument(brightness_of(m.brightness.unwrap()@))
    } else {
        Ok(args.brightness)
    };
    let temperatures = if m.temperature.is_some() {
        as_argument(temperature_of(m.temperature.unwrap()@))
    } else {
        Ok(args.temperatures)
    };
    let gamma = if m.gamma.is_some() {
        as_argument(gamma_of(m.gamma.unwrap()@))
    } else {
        Ok(args.gamma)
    };
    let mode = as_argument(mode_of(args.mode, m));
    let location = if m.location.is_some() {
        as_argument(location_of(m.location.unwrap()@))
    } else {
        Ok(args.location)
    };
    let method = if m.method.is_some() {
        match method_of(m.method.unwrap()) {
            Ok(name) => Ok(Some(name)),
            Err(e) => Err(e),
        }
    } else {
        Ok(args.method)
    };
    if brightness is Err {
        Err(brightness->Err_0)
    } else if temperatures is Err {
        Err(temperatures->Err_0)
    } else if gamma is Err {
        Err(gamma->Err_0)
    } else if mode is Err {
        Err(mode->Err_0)
    } else if location is Err {
        Err(location->Err_0)
    } else if method is Err {
        Err(method->Err_0)
    } else {
        Ok(
            Args {
                verbose: m.verbose,
                brightness: brightness->Ok_0,
                gamma: gamma->Ok_0,
                location: location->Ok_0,
                method: method->Ok_0,
                temperatures: temperatures->Ok_0,
                transition: !m.no_transition,
                mode: mode->Ok_0,
            },
        )
    }
}

/// A decimal of the configuration, or the error that names its key.
pub open spec fn config_decimal_of(value: Seq<char>, what: Seq<char>) -> Result<i64, ErrorView> {
    match decimal_text(value) {
        Ok(v) => Ok(v),
        Err(e) => Err(
            ErrorView::MalformedConfig("could not parse "@ + what + ": "@ + decimal_error_text(e)),
        ),
    }
}

/// A whole number of the configuration, or the error that names its key.
pub open spec fn config_int_of(value: Seq<char>, what: Seq<char>) -> Result<i32, ErrorView> {
    match i32_text(value) {
        Ok(v) => Ok(v),
        Err(e) => Err(
            ErrorView::MalformedConfig("could not parse "@ + what + ": "@ + int_error_text(e)),
        ),
    }
}

/// Either the value that was there, or the value that a text of the
/// configuration, if set, stands for.
pub open spec fn config_decimal_or(was: i64, value: Option<String>, what: Seq<char>) -> Result<
    i64,
    ErrorView,
> {
    if value.is_some() {
        config_decimal_of(value.unwrap()@, what)
    } else {
        Ok(was)
    }
}

/// Either the value that was there, or the value that a text of the
/// configuration, if set, stands for.
pub open spec fn config_int_or(was: i32, value: Option<String>, what: Seq<char>) -> Result<
    i32,
    ErrorView,
> {
    if value.is_some() {
        config_int_of(value.unwrap()@, what)
    } else {
        Ok(was)
    }
}

/// Whether the configuration names the manual location provider.
pub open spec fn manual_location(c: Config) -> bool {
    c.location_provider.is_some() && c.location_provider.unwrap()@ == "manual"@
}

/// The location after the configuration was read: where the provider is
/// the manual one, latitude and longitude of the section `manual`, both of
/// which must be set; else the location that was there.
pub open spec fn config_location_of(was: Location, c: Config) -> Result<Location, ErrorView> {
    if !manual_location(c) {
        Ok(was)
    } else if c.manual_lat.is_none() || c.manual_lon.is_none() {
        Err(
            ErrorView::MalformedConfig(
                "missing 'lat' or 'lon' value for 'manual' location provider"@,
            ),
        )
    } else {
        match config_decimal_of(c.manual_lat.unwrap()@, "latitude"@) {
            Err(e) => Err(e),
            Ok(lat) => match config_decimal_of(c.manual_lon.unwrap()@, "longitude"@) {
                Err(e) => Err(e),
                Ok(lon) => Ok(Location { lat, lon }),
            },
        }
    }
}

/// The method after the configuration was read: the one that the
/// configuration names, which must exist; else the one that was there.
pub open spec fn config_method_of(was: Option<String>, c: Config) -> Result<
    Option<String>,
    ErrorView,
> {
    if c.adjustment_method.is_none() {
        Ok(was)
    } else if kind_named(c.adjustment_method.unwrap()@).is_some() {
        Ok(Some(c.adjustment_method.unwrap()))
    } else {
        Err(
            ErrorView::MalformedConfig(
                "gamma method '"@ + c.adjustment_method.unwrap()@ + "' not found"@,
            ),
        )
    }
}

/// The arguments after a configuration was read: each key that is set
/// replaces what stood before, in the order brightness by day and by night,
/// temperature by day and by night, gamma, transition, location, method;
/// the first that cannot be read decides the error. A configuration without
/// the section `redshift` is an error.
pub open spec fn after_config(args: Args, c: Config) -> Result<Args, ErrorView> {
    let day = config_decimal_or(args.brightness.0, c.brightness_day, "brightness-day"@);
    let night = config_decimal_or(args.brightness.1, c.brightness_night, "brightness-night"@);
    let temp_day = config_int_or(args.temperatures.0, c.temp_day, "temp-day"@);
    let temp_night = config_int_or(args.temperatures.1, c.temp_night, "temp-night"@);
    let gamma = if c.gamma.is_some() {
        as_argument(gamma_of(c.gamma.unwrap()@))
    } else {
        Ok(args.gamma)
    };
    let transition = if c.transition.is_some() {
        c.transition.unwrap()@ != "0"@
    } else {
        args.transition
    };
    let location = config_location_of(args.location, c);
    let method = config_method_of(args.method, c);
    if !c.has_section {
        Err(ErrorView::MalformedConfig("config file does not have a 'redshift' section"@))
    } else if day is Err {
        Err(day->Err_0)
    } else if night is Err {
        Err(night->Err_0)
    } else if temp_day is Err {
        Err(temp_day->Err_0)
    } else if temp_night is Err {
        Err(temp_night->Err_0)
    } else if gamma is Err {
        Err(gamma->Err_0)
    } else if location is Err {
        Err(location->Err_0)
    } else if method is Err {
        Err(method->Err_0)
    } else {
        Ok(
            Args {
                verbose: args.verbose,
                brightness: (day->Ok_0, night->Ok_0),
                gamma: gamma->Ok_0,
                location: location->Ok_0,
                method: method->Ok_0,
                temperatures: (temp_day->Ok_0, temp_night->Ok_0),
                transition,
                mode: args.mode,
            },
        )
    }
}

/// The scheme that the arguments ask for: the default thresholds, and by
/// day and by night the temperatures, brightnesses and gamma corrections
/// that were given.
pub open spec fn scheme_of(args: Args) -> TransitionScheme {
    let gamma = Rgb { red: args.gamma.0, green: args.gamma.1, blue: args.gamma.2 };
    TransitionScheme {
        day: ColorSetting { temp: args.temperatures.0, gamma, brightness: args.brightness.0 },
        night: ColorSetting { temp: args.temperatures.1, gamma, brightness: args.brightness.1 },
        ..TransitionScheme::initial()
    }
}

/// What is to be done for `args` when the sun stands at `elevation`.
pub open spec fn plan_of(args: Args, elevation: i64) -> Plan {
    let scheme = scheme_of(args);
    let report = Report {
        elevation,
        period: scheme.period_at(elevation as int),
        setting: scheme.setting_at(elevation as int),
    };
    match args.mode {
        Mode::Reset => Plan {
            report: None,
            apply: Some(ColorSetting::neutral_spec()),
            continual: None,
        },
        Mode::OneShot => Plan {
            report: if args.verbose {
                Some(report)
            } else {
                None
            },
            apply: Some(report.setting),
            continual: None,
        },
        Mode::Print => Plan { report: Some(report), apply: None, continual: None },
        Mode::Manual(temp) => Plan {
            report: None,
            apply: Some(
                ColorSetting { temp, gamma: scheme.day.gamma, brightness: scheme.day.brightness },
            ),
            continual: None,
        },
        Mode::Continual => Plan { report: None, apply: None, continual: Some(scheme) },
    }
}

/// The name of a gamma method that exists; a name of none is an error.
pub fn determine_gamma_method(method: String) -> (out: Result<String, RedshiftError>)
    ensures
        agrees(out, method_of(method)),
{
    if is_method_available(method.as_str()) {
        Ok(method)
    } else {
        Err(RedshiftError::GammaMethodNotFound(method))
    }
}

/// What `pieces_of` says of the first three pieces of a text.
proof fn lemma_first_pieces(parts: Seq<&str>, s: Seq<char>)
    requires
        parts.len() >= 1,
        crate::text::pieces_of(parts, s),
        !has_piece(s, parts.len()),
    ensures
        has_piece(s, 0) && parts[0]@ == piece(s, 0),
        has_piece(s, 1) == (parts.len() >= 2),
        has_piece(s, 2) == (parts.len() >= 3),
        parts.len() >= 2 ==> parts[1]@ == piece(s, 1),
        parts.len() >= 3 ==> parts[2]@ == piece(s, 2),
{
    lemma_piece(parts, s, 0);
    if parts.len() >= 2 {
        lemma_piece(parts, s, 1);
    } else {
        lemma_no_later_piece(s, parts.len(), 1);
    }
    if parts.len() >= 3 {
        lemma_piece(parts, s, 2);
    } else {
        lemma_no_later_piece(s, parts.len(), 2);
    }
}

/// Parses the temperature argument.
///
/// Expected as `DAY:NIGHT`, where both are whole numbers of thirty-two
/// bits. Any other input produces an error.
pub fn parse_temperature(input: &str) -> (out: Result<(i32, i32), RedshiftError>)
    ensures
        agrees(out, as_argument(temperature_of(input@))),
{
    let parts = split_colons(input);
    proof {
        lemma_first_pieces(parts@, input@);
    }
    let day = match parse_i32(parts[0]) {
        Ok(day) => day,
        Err(_) => {
            return malformed(part_of("temperature argument: ", parts[0], input));
        },
    };
    if parts.len() < 2 {
        return malformed(join("temperature argument: ", input));
    }
    let night = match parse_i32(parts[1]) {
        Ok(night) => night,
        Err(_) => {
            return malformed(part_of("temperature argument: ", parts[1], input));
        },
    };
    if parts.len() > 2 {
        return malformed(join("temperature argument: ", input));
    }
    Ok((day, night))
}

/// Parses the brightness argument.
///
/// Expected as `DAY:NIGHT`, where both are decimals, or as one decimal for
/// both. Any other input produces an error.
pub fn parse_brightness(input: &str) -> (out: Result<(i64, i64), RedshiftError>)
    ensures
        agrees(out, as_argument(brightness_of(input@))),
{
    let parts = split_colons(input);
    proof {
        lemma_first_pieces(parts@, input@);
    }
    let day = match parse_decimal(parts[0]) {
        Ok(day) => day,
        Err(_) => {
            return malformed(part_of("brightness: ", parts[0], input));
        },
    };
    if parts.len() < 2 {
        return Ok((day, day));
    }
    let night = match parse_decimal(parts[1]) {
        Ok(night) => night,
        Err(_) => {
            return malformed(part_of("brightness: ", parts[1], input));
        },
    };
    if parts.len() > 2 {
        return malformed(part_of("brightness: trailing ", parts[2], input));
    }
    Ok((day, night))
}

/// The text that says that a gamma correction cannot be applied.
fn gamma_range_message(value: i64) -> (out: String)
    ensures
        out@ == gamma_range_text(value),
{
    let mut text = String::from_str("Gamma value must be between ");
    text.append(render_micro(MIN_GAMMA).as_str());
    text.append(" and ");
    text.append(render_micro(MAX_GAMMA).as_str());
    text.append(". Was ");
    text.append(render_micro(value).as_str());
    text
}

/// Reads one part of a gamma text.
fn parse_gamma_part(part: &str, input: &str) -> (out: Result<i64, RedshiftError>)
    ensures
        agrees(out, as_argument(gamma_part(part@, input@))),
{
    match parse_decimal(part) {
        Err(_) => malformed(part_of("gamma: ", part, input)),
        Ok(value) => if value < MIN_GAMMA || value > MAX_GAMMA {
            malformed(gamma_range_message(value))
        } else {
            Ok(value)
        },
    }
}

/// Parses the gamma argument: one decimal for all channels, or three
/// separated by colons, each between a tenth and ten.
pub fn parse_gamma(input: &str) -> (out: Result<(i64, i64, i64), RedshiftError>)
    ensures
        agrees(out, as_argument(gamma_of(input@))),
{
    let parts = split_colons(input);
    proof {
        lemma_first_pieces(parts@, input@);
    }
    let red = match parse_gamma_part(parts[0], input) {
        Ok(red) => red,
        Err(e) => {
            return Err(e);
        },
    };
    if parts.len() < 2 {
        return Ok((red, red, red));
    }
    let green = match parse_gamma_part(parts[1], input) {
        Ok(green) => green,
        Err(e) => {
            return Err(e);
        },
    };
    if parts.len() < 3 {
        return malformed(part_of("gamma: ", parts[1], input));
    }
    let blue = match parse_gamma_part(parts[2], input) {
        Ok(blue) => blue,
        Err(e) => {
            return Err(e);
        },
    };
    Ok((red, green, blue))
}

/// The text that says why a text is no whole number.
pub fn int_error_message(error: IntError) -> (out: &'static str)
    ensures
        out@ == int_error_text(error),
{
    match error {
        IntError::Empty => "cannot parse integer from empty string",
        IntError::InvalidDigit => "invalid digit found in string",
        IntError::PosOverflow => "number too large to fit in target type",
        IntError::NegOverflow => "number too small to fit in target type",
    }
}

/// The text that says why a text is no decimal.
pub fn decimal_error_message(error: DecimalError) -> (out: &'static str)
    ensures
        out@ == decimal_error_text(error),
{
    match error {
        DecimalError::Empty => "cannot parse float from empty string",
        DecimalError::Invalid => "invalid float literal",
    }
}

/// Reads the temperature of the manual mode.
fn parse_manual(input: &str) -> (out: Result<i32, RedshiftError>)
    ensures
        agrees(out, as_argument(manual_of(input@))),
{
    match parse_i32(input) {
        Err(e) => malformed(String::from_str(int_error_message(e))),
        Ok(temp) => if temp < MIN_TEMP || temp > MAX_TEMP {
            let mut text = String::from_str("Temperature must be between ");
            text.append(render_int(MIN_TEMP as i64).as_str());
            text.append(" and ");
            text.append(render_int(MAX_TEMP as i64).as_str());
            text.append(" (was ");
            text.append(render_int(temp as i64).as_str());
            text.append(")");
            malformed(text)
        } else {
            Ok(temp)
        },
    }
}

/// Reads a decimal of the configuration.
fn config_decimal(value: &str, what: &str) -> (out: Result<i64, RedshiftError>)
    ensures
        agrees(out, config_decimal_of(value@, what@)),
{
    match parse_decimal(value) {
        Ok(v) => Ok(v),
        Err(e) => {
            let mut text = String::from_str("could not parse ");
            text.append(what);
            text.append(": ");
            text.append(decimal_error_message(e));
            malformed_config(text)
        },
    }
}

/// Reads a whole number of the configuration.
fn config_int(value: &str, what: &str) -> (out: Result<i32, RedshiftError>)
    ensures
        agrees(out, config_int_of(value@, what@)),
{
    match parse_i32(value) {
        Ok(v) => Ok(v),
        Err(e) => {
            let mut text = String::from_str("could not parse ");
            text.append(what);
            text.append(": ");
            text.append(int_error_message(e));
            malformed_config(text)
        },
    }
}

/// Reads the location of the configuration.
fn config_location(was: Location, conf: &Config) -> (out: Result<Location, RedshiftError>)
    ensures
        agrees(out, config_location_of(was, *conf)),
{
    let manual = match &conf.location_provider {
        Some(provider) => same_text(provider.as_str(), "manual"),
        None => false,
    };
    if !manual {
        return Ok(was);
    }
    match (&conf.manual_lat, &conf.manual_lon) {
        (Some(lat), Some(lon)) => {
            let lat = match config_decimal(lat.as_str(), "latitude") {
                Ok(lat) => lat,
                Err(e) => {
                    return Err(e);
                },
            };
            let lon = match config_decimal(lon.as_str(), "longitude") {
                Ok(lon) => lon,
                Err(e) => {
                    return Err(e);
                },
            };
            Ok(Location::new(lat, lon))
        },
        _ => malformed_config(
            String::from_str("missing 'lat' or 'lon' value for 'manual' location provider"),
        ),
    }
}

/// Reads the method of the configuration.
fn config_method(was: Option<String>, conf: &Config) -> (out: Result<Option<String>, RedshiftError>)
    ensures
        agrees(out, config_method_of(was, *conf)),
{
    match &conf.adjustment_method {
        None => Ok(was),
        Some(method) => {
            if is_method_available(method.as_str()) {
                Ok(Some(method.clone()))
            } else {
                let mut text = String::from_str("gamma method '");
                text.append(method.as_str());
                text.append("' not found");
                malformed_config(text)
            }
        },
    }
}

impl Args {
    /// The arguments where nothing is asked for.
    pub open spec fn initial() -> Args {
        Args {
            verbose: false,
            brightness: (DEFAULT_BRIGHTNESS, DEFAULT_BRIGHTNESS),
            gamma: (DEFAULT_GAMMA, DEFAULT_GAMMA, DEFAULT_GAMMA),
            location: Location { lat: 55_700_000, lon: 12_600_000 },
            method: None,
            temperatures: (DEFAULT_DAY_TEMP, DEFAULT_NIGHT_TEMP),
            transition: true,
            mode: Mode::Continual,
        }
    }

    /// The arguments where nothing is asked for: neutral brightness and
    /// gamma, the default temperatures, no method chosen, and the loop as
    /// the mode.
    pub fn defaults() -> (out: Args)
        ensures
            out == Args::initial(),
    {
        Args {
            verbose: false,
            brightness: (DEFAULT_BRIGHTNESS, DEFAULT_BRIGHTNESS),
            gamma: (DEFAULT_GAMMA, DEFAULT_GAMMA, DEFAULT_GAMMA),
            location: Location::new(55_700_000, 12_600_000),
            method: None,
            temperatures: (DEFAULT_DAY_TEMP, DEFAULT_NIGHT_TEMP),
            transition: true,
            mode: Mode::Continual,
        }
    }

    /// Updates the arguments from a configuration file, if there is one.
    /// Without one the arguments stay as they are.
    pub fn update_from_config(self, conf: Option<&Config>) -> (out: Result<Args, RedshiftError>)
        ensures
            conf.is_none() ==> out == Ok::<Args, RedshiftError>(self),
            conf.is_some() ==> agrees(out, after_config(self, *conf.unwrap())),
    {
        let conf = match conf {
            Some(conf) => conf,
            None => {
                return Ok(self);
            },
        };
        let mut args = self;
        if !conf.has_section {
            return malformed_config(
                String::from_str("config file does not have a 'redshift' section"),
            );
        }
        if let Some(value) = &conf.brightness_day {
            match config_decimal(value.as_str(), "brightness-day") {
                Ok(day) => {
                    args.brightness.0 = day;
                },
                Err(e) => {
                    return Err(e);
                },
            }
        }
        if let Some(value) = &conf.brightness_night {
            match config_decimal(value.as_str(), "brightness-night") {
                Ok(night) => {
                    args.brightness.1 = night;
                },
                Err(e) => {
                    return Err(e);
                },
            }
        }
        if let Some(value) = &conf.temp_day {
            match config_int(value.as_str(), "temp-day") {
                Ok(day) => {
                    args.temperatures.0 = day;
                },
                Err(e) => {
                    return Err(e);
                },
            }
        }
        if let Some(value) = &conf.temp_night {
            match config_int(value.as_str(), "temp-night") {
                Ok(night) => {
                    args.temperatures.1 = night;
                },
                Err(e) => {
                    return Err(e);
                },
            }
        }
        if let Some(value) = &conf.gamma {
            match parse_gamma(value.as_str()) {
                Ok(gamma) => {
                    args.gamma = gamma;
                },
                Err(e) => {
                    return Err(e);
                },
            }
        }
        if let Some(value) = &conf.transition {
            args.transition = !same_text(value.as_str(), "0");
        }
        match config_location(args.location, conf) {
            Ok(location) => {
                args.location = location;
            },
            Err(e) => {
                return Err(e);
            },
        }
        let method = args.method;
        match config_method(method, conf) {
            Ok(method) => {
                args.method = method;
            },
            Err(e) => {
                return Err(e);
            },
        }
        Ok(args)
    }

    /// Updates the arguments from what was found on the command line.
    pub fn update_from_args(self, matches: &Matches) -> (out: Result<Args, RedshiftError>)
        ensures
            agrees(out, after_matches(self, *matches)),
    {
        let mut args = self;
        if let Some(input) = &matches.brightness {
            match parse_brightness(input.as_str()) {
                Ok(brightness) => {
                    args.brightness = brightness;
                },
                Err(e) => {
                    return Err(e);
                },
            }
        }
        if let Some(input) = &matches.temperature {
            match parse_temperature(input.as_str()) {
                Ok(temperatures) => {
                    args.temperatures = temperatures;
                },
                Err(e) => {
                    return Err(e);
                },
            }
        }
        if let Some(input) = &matches.gamma {
            match parse_gamma(input.as_str()) {
                Ok(gamma) => {
                    args.gamma = gamma;
                },
                Err(e) => {
                    return Err(e);
                },
            }
        }
        if matches.print {
            args.mode = Mode::Print;
        } else if matches.oneshot {
            args.mode = Mode::OneShot;
        } else if let Some(temp) = &matches.oneshot_manual {
            match parse_manual(temp.as_str()) {
                Ok(temp) => {
                    args.mode = Mode::Manual(temp);
                },
                Err(e) => {
                    return Err(e);
                },
            }
        } else if matches.reset {
            args.mode = Mode::Reset;
        }
        if let Some(location) = &matches.location {
            match Location::from_str(location.as_str()) {
                Ok(location) => {
                    args.location = location;
                },
                Err(e) => {
                    return Err(e);
                },
            }
        }
        if let Some(method) = &matches.method {
            match determine_gamma_method(method.clone()) {
                Ok(method) => {
                    args.method = Some(method);
                },
                Err(e) => {
                    return Err(e);
                },
            }
        }
        args.verbose = matches.verbose;
        args.transition = !matches.no_transition;
        Ok(args)
    }

    /// The transition scheme that the arguments ask for.
    pub fn scheme(&self) -> (out: TransitionScheme)
        ensures
            out == scheme_of(*self),
            out.wf(),
            !out.fading(),
    {
        let gamma = Rgb { red: self.gamma.0, green: self.gamma.1, blue: self.gamma.2 };
        let mut scheme = TransitionScheme::new();
        scheme.day = ColorSetting {
            temp: self.temperatures.0,
            gamma,
            brightness: self.brightness.0,
        };
        scheme.night = ColorSetting {
            temp: self.temperatures.1,
            gamma,
            brightness: self.brightness.1,
        };
        scheme
    }
}

/// Says what is to be done for the arguments when the sun stands at
/// `elevation`.
///
/// To reset is to apply the neutral setting. One shot applies the scheme's
/// setting for the elevation, and reports it where verbose. Print reports
/// and applies nothing. Manual applies the given temperature with the gamma
/// and brightness of the day. The default is to run the loop with the
/// scheme.
pub fn run(args: &Args, elevation: i64) -> (out: Plan)
    ensures
        out == plan_of(*args, elevation),
{
    let scheme = args.scheme();
    match args.mode {
        Mode::Reset => Plan { report: None, apply: Some(ColorSetting::neutral()), continual: None },
        Mode::OneShot => {
            let setting = scheme.interpolate_color_settings(elevation);
            let report = if args.verbose {
                Some(Report { elevation, period: scheme.get_period(elevation), setting })
            } else {
                None
            };
            Plan { report, apply: Some(setting), continual: None }
        },
        Mode::Print => {
            let setting = scheme.interpolate_color_settings(elevation);
            let report = Report { elevation, period: scheme.get_period(elevation), setting };
            Plan { report: Some(report), apply: None, continual: None }
        },
        Mode::Manual(temp) => Plan {
            report: None,
            apply: Some(
                ColorSetting { temp, gamma: scheme.day.gamma, brightness: scheme.day.brightness },
            ),
            continual: None,
        },
        Mode::Continual => Plan { report: None, apply: None, continual: Some(scheme) },
    }
}

} // verus!

//! The transition scheme: which part of the day an elevation of the sun
//! belongs to, which colour setting goes with it, and the short fade that
//! eases the display in and out.
//!
//! Elevations are millionths of a degree; gamma, brightness and every
//! fraction are millionths of one.

use vstd::prelude::*;
use crate::fixed::{
    blend, blend_int, clamp_int, fraction, fraction_int, lemma_blend_bounds, lemma_blend_ends,
    lemma_blend_monotone, lemma_fraction_bounds, max_int, min_int, trunc_div, SCALE,
};
use crate::number::{digit_char, digit_text, nat_text, render_nat};
use crate::solar::CIVIL_TWILIGHT_ELEV;
use vstd::string::StringExecFns;

verus! {

/// Colour temperature, in Kelvin, at which the display is left as it is.
pub const NEUTRAL_TEMP: i32 = 6500;

/// Marks a gamma or brightness value that has not been set yet.
pub const UNSET: i64 = -1;

/// Millionths by which a step of length one moves the fade: a tenth.
pub const FADE_UNIT: i64 = 100_000;

/// One value for each colour channel.
#[derive(Clone, Copy, Debug, PartialEq, Eq, Structural)]
pub struct Rgb {
    pub red: i64,
    pub green: i64,
    pub blue: i64,
}

/// Periods of day.
#[derive(Clone, Copy, Debug, PartialEq, Eq, Structural)]
pub enum Period {
    /// Not determined yet.
    Unknown,
    Day,
    Night,
    /// Between night and day; the value says how far towards day, in
    /// millionths.
    Transition(i64),
}

/// A colour setting: what a display is asked to show.
#[derive(Clone, Copy, Debug, PartialEq, Eq, Structural)]
pub struct ColorSetting {
    pub temp: i32,
    pub gamma: Rgb,
    pub brightness: i64,
}

/// Why a transition scheme cannot be built.
#[derive(Clone, Copy, Debug, PartialEq, Eq, Structural)]
pub enum SchemeError {
    /// The elevation of full day does not lie above that of full night.
    ConfigurationInvariantViolated,
}

/// The solar elevations at which the transition begins and ends, the colour
/// settings that go with them, and the state of the short fade.
#[derive(Clone, Copy, Debug, PartialEq, Eq, Structural)]
pub struct TransitionScheme {
    pub high: i64,
    pub low: i64,
    pub day: ColorSetting,
    pub night: ColorSetting,
    /// Direction of the short fade: negative, zero (no fade runs) or positive.
    pub short_trans_delta: i16,
    /// Length of the short fade; a fade of length `n` takes `10 * n` steps
    /// from one end to the other.
    pub short_trans_len: u16,
    /// How far the applied setting is drawn towards neutral, in millionths.
    pub adjustment_alpha: i64,
}

/// A fraction in millionths as a percentage with two digits after the
/// point, rounded to the nearest hundredth of a percent.
pub open spec fn percent_text(fraction: int) -> Seq<char> {
    let hundredths = (fraction + 50) / 100;
    nat_text((hundredths / 100) as nat) + "."@ + seq![
        digit_char((hundredths / 10) % 10),
        digit_char(hundredths % 10),
    ]
}

/// The text that a period is shown as.
pub open spec fn period_text(period: Period) -> Seq<char> {
    match period {
        Period::Unknown => "Period: None"@,
        Period::Day => "Period: Day"@,
        Period::Night => "Period: Night"@,
        Period::Transition(t) => "Period: Transition ("@ + percent_text(t as int) + "% day)"@,
    }
}

impl Period {
    /// The period's invariant: the progress of a transition lies between
    /// nothing and all.
    pub open spec fn wf(self) -> bool {
        self matches Period::Transition(t) ==> 0 <= t <= SCALE
    }

    /// Tells whether the period's invariant holds.
    pub fn is_valid(&self) -> (out: bool)
        ensures
            out == self.wf(),
    {
        match *self {
            Period::Transition(t) => 0 <= t && t <= SCALE,
            _ => true,
        }
    }

    /// The text that the period is shown as: its name, and for a transition
    /// how far it is towards day, in percent.
    pub fn print(&self) -> (out: String)
        requires
            self.wf(),
        ensures
            out@ == period_text(*self),
    {
        match *self {
            Period::Unknown => String::from_str("Period: None"),
            Period::Day => String::from_str("Period: Day"),
            Period::Night => String::from_str("Period: Night"),
            Period::Transition(t) => {
                let hundredths: u64 = ((t + 50) / 100) as u64;
                let mut text = String::from_str("Period: Transition (");
                text.append(render_nat(hundredths / 100).as_str());
                text.append(".");
                let ghost head = text@;
                text.append(digit_text(((hundredths / 10) % 10) as u8));
                text.append(digit_text((hundredths % 10) as u8));
                proof {
                    let h = hundredths as int;
                    assert(h == (t + 50) / 100);
                    assert(text@ =~= head + seq![digit_char((h / 10) % 10), digit_char(h % 10)]);
                    assert(head + seq![digit_char((h / 10) % 10), digit_char(h % 10)]
                        =~= "Period: Transition ("@ + percent_text(t as int));
                }
                text.append("% day)");
                text
            },
        }
    }
}

impl Rgb {
    /// The same value on every channel.
    pub fn uniform(value: i64) -> (out: Rgb)
        ensures
            out == (Rgb { red: value, green: value, blue: value }),
    {
        Rgb { red: value, green: value, blue: value }
    }
}

impl ColorSetting {
    /// The setting that marks "nothing chosen yet": no temperature, gamma or
    /// brightness.
    pub open spec fn unset() -> ColorSetting {
        ColorSetting {
            temp: -1i32,
            gamma: Rgb { red: UNSET, green: UNSET, blue: UNSET },
            brightness: UNSET,
        }
    }

    /// The setting that leaves a display as it is.
    pub open spec fn neutral_spec() -> ColorSetting {
        ColorSetting {
            temp: NEUTRAL_TEMP,
            gamma: Rgb { red: SCALE, green: SCALE, blue: SCALE },
            brightness: SCALE,
        }
    }

    /// Whether every field has been given a value.
    pub open spec fn populated(self) -> bool {
        &&& self.temp >= 0
        &&& self.gamma.red >= 0
        &&& self.gamma.green >= 0
        &&& self.gamma.blue >= 0
        &&& self.brightness >= 0
    }

    /// A setting with nothing chosen yet.
    pub fn new() -> (out: ColorSetting)
        ensures
            out == ColorSetting::unset(),
            !out.populated(),
    {
        ColorSetting { temp: -1, gamma: Rgb::uniform(UNSET), brightness: UNSET }
    }

    /// The neutral setting.
    pub fn neutral() -> (out: ColorSetting)
        ensures
            out == ColorSetting::neutral_spec(),
            out.populated(),
    {
        ColorSetting { temp: NEUTRAL_TEMP, gamma: Rgb::uniform(SCALE), brightness: SCALE }
    }

    /// Tells whether every field has been given a value.
    pub fn is_populated(&self) -> (out: bool)
        ensures
            out == self.populated(),
    {
        self.temp >= 0 && self.gamma.red >= 0 && self.gamma.green >= 0 && self.gamma.blue >= 0
            && self.brightness >= 0
    }

    /// Field by field, the blend of `from` and `to` at the fraction `n / d`.
    pub open spec fn blended(from: ColorSetting, to: ColorSetting, n: int, d: int) -> ColorSetting {
        ColorSetting {
            temp: blend_int(from.temp as int, to.temp as int, n, d) as i32,
            gamma: Rgb {
                red: blend_int(from.gamma.red as int, to.gamma.red as int, n, d) as i64,
                green: blend_int(from.gamma.green as int, to.gamma.green as int, n, d) as i64,
                blue: blend_int(from.gamma.blue as int, to.gamma.blue as int, n, d) as i64,
            },
            brightness: blend_int(from.brightness as int, to.brightness as int, n, d) as i64,
        }
    }

    /// This setting with temperature and brightness drawn towards neutral by
    /// `alpha` millionths; gamma stays as it is.
    pub open spec fn toward_neutral(self, alpha: int) -> ColorSetting {
        ColorSetting {
            temp: blend_int(self.temp as int, NEUTRAL_TEMP as int, alpha, SCALE as int) as i32,
            gamma: self.gamma,
            brightness: blend_int(self.brightness as int, SCALE as int, alpha, SCALE as int) as i64,
        }
    }

    /// Whether each field of `self` lies between the same field of `a` and
    /// of `b`.
    pub open spec fn between(self, a: ColorSetting, b: ColorSetting) -> bool {
        &&& min_int(a.temp as int, b.temp as int) <= self.temp <= max_int(
            a.temp as int,
            b.temp as int,
        )
        &&& min_int(a.gamma.red as int, b.gamma.red as int) <= self.gamma.red <= max_int(
            a.gamma.red as int,
            b.gamma.red as int,
        )
        &&& min_int(a.gamma.green as int, b.gamma.green as int) <= self.gamma.green <= max_int(
            a.gamma.green as int,
            b.gamma.green as int,
        )
        &&& min_int(a.gamma.blue as int, b.gamma.blue as int) <= self.gamma.blue <= max_int(
            a.gamma.blue as int,
            b.gamma.blue as int,
        )
        &&& min_int(a.brightness as int, b.brightness as int) <= self.brightness <= max_int(
            a.brightness as int,
            b.brightness as int,
        )
    }
}

impl TransitionScheme {
    /// The scheme before any setting is chosen.
    pub open spec fn initial() -> TransitionScheme {
        TransitionScheme {
            high: 3_000_000i64,
            low: CIVIL_TWILIGHT_ELEV,
            day: ColorSetting::unset(),
            night: ColorSetting::unset(),
            short_trans_delta: 0i16,
            short_trans_len: 10u16,
            adjustment_alpha: SCALE,
        }
    }

    /// Full day lies above full night.
    pub open spec fn ordered(self) -> bool {
        self.low < self.high
    }

    /// The scheme's invariant: full day lies above full night, and the fade
    /// stands between nothing and all.
    pub open spec fn wf(self) -> bool {
        &&& self.ordered()
        &&& 0 <= self.adjustment_alpha <= SCALE
    }

    /// Width of the transition, in millionths of a degree.
    pub open spec fn span(self) -> int {
        self.high - self.low
    }

    /// How far `elevation` lies above full night, held within the transition:
    /// the numerator of the interpolation fraction, whose denominator is
    /// `span`.
    pub open spec fn offset(self, elevation: int) -> int {
        clamp_int(elevation - self.low, 0, self.span())
    }

    /// The interpolation fraction for `elevation`, in millionths.
    pub open spec fn progress(self, elevation: int) -> int {
        fraction_int(self.offset(elevation), self.span())
    }

    /// The period of day that `elevation` belongs to.
    pub open spec fn period_at(self, elevation: int) -> Period {
        if elevation < self.low {
            Period::Night
        } else if elevation > self.high {
            Period::Day
        } else {
            Period::Transition(self.progress(elevation) as i64)
        }
    }

    /// The colour setting for `elevation`.
    pub open spec fn setting_at(self, elevation: int) -> ColorSetting {
        ColorSetting::blended(self.night, self.day, self.offset(elevation), self.span())
    }

    /// Whether a short fade is running.
    pub open spec fn fading(self) -> bool {
        self.short_trans_delta != 0
    }

    /// Millionths by which one step moves the fade.
    pub open spec fn fade_step(self) -> int {
        trunc_div(self.short_trans_delta as int * FADE_UNIT as int, self.short_trans_len as int)
    }

    /// The scheme after one step of the short fade.
    ///
    /// Where no fade runs, nothing changes. A fade of length zero is complete
    /// at once. Otherwise the fade moves by `fade_step`; where it reaches or
    /// passes either end it stops there for good.
    pub open spec fn stepped(self) -> TransitionScheme {
        if self.short_trans_delta == 0 {
            self
        } else if self.short_trans_len == 0 {
            TransitionScheme {
                short_trans_delta: 0i16,
                adjustment_alpha: if self.short_trans_delta > 0 {
                    SCALE
                } else {
                    0i64
                },
                ..self
            }
        } else {
            let raw = self.adjustment_alpha + self.fade_step();
            TransitionScheme {
                short_trans_delta: if raw <= 0 || raw >= SCALE {
                    0i16
                } else {
                    self.short_trans_delta
                },
                adjustment_alpha: clamp_int(raw, 0, SCALE as int) as i64,
                ..self
            }
        }
    }

    /// The scheme before any setting is chosen: the transition runs from
    /// civil twilight to three degrees above the horizon, and no fade runs.
    pub fn new() -> (out: TransitionScheme)
        ensures
            out == TransitionScheme::initial(),
            out.wf(),
            !out.fading(),
    {
        TransitionScheme {
            high: 3_000_000,
            low: CIVIL_TWILIGHT_ELEV,
            day: ColorSetting::new(),
            night: ColorSetting::new(),
            short_trans_delta: 0,
            short_trans_len: 10,
            adjustment_alpha: SCALE,
        }
    }

    /// A scheme between the elevations `low` and `high` with the settings
    /// `night` and `day`, and no fade running. Refused exactly when `high`
    /// does not lie above `low`.
    pub fn with_thresholds(low: i64, high: i64, day: ColorSetting, night: ColorSetting) -> (out:
        Result<TransitionScheme, SchemeError>)
        ensures
            low < high ==> out == Ok::<TransitionScheme, SchemeError>(
                TransitionScheme { high, low, day, night, ..TransitionScheme::initial() },
            ),
            low < high ==> out.unwrap().wf(),
            low >= high ==> out == Err::<TransitionScheme, SchemeError>(
                SchemeError::ConfigurationInvariantViolated,
            ),
    {
        if low < high {
            Ok(
                TransitionScheme {
                    high,
                    low,
                    day,
                    night,
                    short_trans_delta: 0,
                    short_trans_len: 10,
                    adjustment_alpha: SCALE,
                },
            )
        } else {
            Err(SchemeError::ConfigurationInvariantViolated)
        }
    }

    /// Tells whether the scheme's invariant holds.
    pub fn is_valid(&self) -> (out: bool)
        ensures
            out == self.wf(),
    {
        self.low < self.high && 0 <= self.adjustment_alpha && self.adjustment_alpha <= SCALE
    }

    /// Numerator and denominator of the interpolation fraction.
    fn fraction_parts(&self, elevation: i64) -> (out: (u64, u64))
        requires
            self.ordered(),
        ensures
            out.0 == self.offset(elevation as int),
            out.1 == self.span(),
            out.0 <= out.1,
            0 < out.1,
    {
        let span: u64 = ((self.high as i128) - (self.low as i128)) as u64;
        let offset: u64 = if elevation <= self.low {
            0
        } else if elevation >= self.high {
            span
        } else {
            ((elevation as i128) - (self.low as i128)) as u64
        };
        (offset, span)
    }

    /// Given an elevation, computes a colour setting from this scheme's
    /// settings: `night` at and below `low`, `day` at and above `high`, and
    /// between them the blend in proportion to the elevation.
    pub fn interpolate_color_settings(&self, elevation: i64) -> (out: ColorSetting)
        requires
            self.ordered(),
        ensures
            out == self.setting_at(elevation as int),
            0 <= self.offset(elevation as int) <= self.span(),
            out.between(self.night, self.day),
            elevation <= self.low ==> out == self.night,
            elevation >= self.high ==> out == self.day,
    {
        let (n, d) = self.fraction_parts(elevation);
        proof {
            lemma_setting_at_ends(*self, elevation as int);
        }
        ColorSetting {
            temp: blend(self.night.temp as i64, self.day.temp as i64, n, d) as i32,
            gamma: Rgb {
                red: blend(self.night.gamma.red, self.day.gamma.red, n, d),
                green: blend(self.night.gamma.green, self.day.gamma.green, n, d),
                blue: blend(self.night.gamma.blue, self.day.gamma.blue, n, d),
            },
            brightness: blend(self.night.brightness, self.day.brightness, n, d),
        }
    }

    /// Determines how far through the transition an elevation lies, in
    /// millionths: nothing below `low`, all above `high`.
    pub fn transition_progress(&self, elevation: i64) -> (out: i64)
        requires
            self.ordered(),
        ensures
            out == self.progress(elevation as int),
            0 <= out <= SCALE,
            elevation <= self.low ==> out == 0,
            elevation >= self.high ==> out == SCALE,
    {
        let (n, d) = self.fraction_parts(elevation);
        proof {
            lemma_fraction_bounds(n as int, n as int, d as int);
        }
        fraction(n, d)
    }

    /// The period of day for an elevation: night below `low`, day above
    /// `high`, and between them, both ends included, a transition with its
    /// progress.
    pub fn get_period(&self, elevation: i64) -> (out: Period)
        requires
            self.ordered(),
        ensures
            out == self.period_at(elevation as int),
            elevation == self.low ==> out == Period::Transition(0),
            elevation == self.high ==> out == Period::Transition(SCALE),
            elevation < self.low <==> out == Period::Night,
            elevation > self.high <==> out == Period::Day,
    {
        if elevation < self.low {
            Period::Night
        } else if elevation > self.high {
            Period::Day
        } else {
            Period::Transition(self.transition_progress(elevation))
        }
    }

    /// Tells whether a short fade is running.
    pub fn short_transition(&self) -> (out: bool)
        ensures
            out == self.fading(),
    {
        self.short_trans_delta != 0
    }

    /// Moves the short fade by one step. Once the fade has stopped, further
    /// calls change nothing.
    pub fn adjust_transition_alpha(&mut self)
        requires
            old(self).wf(),
        ensures
            *final(self) == old(self).stepped(),
            final(self).wf(),
            !old(self).fading() ==> *final(self) == *old(self),
            final(self).fading() ==> 0 < final(self).adjustment_alpha < SCALE,
    {
        if self.short_trans_delta == 0 {
            return ;
        }
        if self.short_trans_len == 0 {
            self.adjustment_alpha = if self.short_trans_delta > 0 {
                SCALE
            } else {
                0
            };
            self.short_trans_delta = 0;
            return ;
        }
        let step: i64 = (self.short_trans_delta as i64 * FADE_UNIT) / (self.short_trans_len as i64);
        proof {
            lemma_fade_step_bounds(*self);
        }
        let raw: i64 = self.adjustment_alpha + step;
        if raw <= 0 || raw >= SCALE {
            self.short_trans_delta = 0;
        }
        self.adjustment_alpha = if raw < 0 {
            0
        } else if raw > SCALE {
            SCALE
        } else {
            raw
        };
    }

    /// Draws temperature and brightness of `setting` towards neutral by the
    /// scheme's `adjustment_alpha`: all the way at one, not at all at zero.
    /// Gamma is left as it is.
    pub fn blend_toward_neutral(&self, setting: ColorSetting) -> (out: ColorSetting)
        requires
            self.wf(),
        ensures
            out == setting.toward_neutral(self.adjustment_alpha as int),
            out.gamma == setting.gamma,
            self.adjustment_alpha == 0 ==> out == setting,
            self.adjustment_alpha == SCALE ==> out.temp == NEUTRAL_TEMP && out.brightness == SCALE,
    {
        let alpha: u64 = self.adjustment_alpha as u64;
        proof {
            lemma_blend_ends(setting.temp as int, NEUTRAL_TEMP as int, SCALE as int);
            lemma_blend_ends(setting.brightness as int, SCALE as int, SCALE as int);
        }
        ColorSetting {
            temp: blend(setting.temp as i64, NEUTRAL_TEMP as i64, alpha, SCALE as u64) as i32,
            gamma: setting.gamma,
            brightness: blend(setting.brightness, SCALE, alpha, SCALE as u64),
        }
    }
}

/// A step of a running fade is never nothing, and never more than the fade's
/// direction times a tenth.
pub proof fn lemma_fade_step_bounds(scheme: TransitionScheme)
    requires
        scheme.short_trans_len > 0,
    ensures
        scheme.short_trans_delta > 0 ==> 0 < scheme.fade_step() <= scheme.short_trans_delta
            * FADE_UNIT,
        scheme.short_trans_delta < 0 ==> scheme.short_trans_delta * FADE_UNIT
            <= scheme.fade_step() < 0,
        scheme.short_trans_delta == 0 ==> scheme.fade_step() == 0,
{
    let delta = scheme.short_trans_delta as int;
    let len = scheme.short_trans_len as int;
    if delta > 0 {
        assert(delta * 100_000 >= 100_000 > len);
        lemma_magnitude_step(delta * 100_000, len);
    } else if delta < 0 {
        assert(-(delta * 100_000) >= 100_000 > len);
        lemma_magnitude_step(-(delta * 100_000), len);
    }
}

/// A quotient of a number by a smaller positive one is at least one and at
/// most the number.
proof fn lemma_magnitude_step(x: int, len: int)
    requires
        0 < len <= x,
    ensures
        1 <= x / len <= x,
{
    vstd::arithmetic::div_mod::lemma_div_is_ordered(len, x, len);
    vstd::arithmetic::div_mod::lemma_div_multiples_vanish(1, len);
    assert(len * 1 == len);
    vstd::arithmetic::div_mod::lemma_div_is_ordered_by_denominator(x, 1, len);
    vstd::arithmetic::div_mod::lemma_div_basics(x);
}

/// At and below `low` the setting is `night`; at and above `high` it is
/// `day`; everywhere it lies between the two, however far the elevation lies
/// outside the transition. Each field is the blend of the two settings at the
/// fraction `offset / span`, which lies between nothing and all.
pub proof fn lemma_setting_at_ends(scheme: TransitionScheme, elevation: int)
    requires
        scheme.ordered(),
    ensures
        0 <= scheme.offset(elevation) <= scheme.span(),
        scheme.setting_at(elevation).between(scheme.night, scheme.day),
        elevation <= scheme.low ==> scheme.setting_at(elevation) == scheme.night,
        elevation >= scheme.high ==> scheme.setting_at(elevation) == scheme.day,
        scheme.setting_at(elevation).temp == blend_int(
            scheme.night.temp as int,
            scheme.day.temp as int,
            scheme.offset(elevation),
            scheme.span(),
        ),
        scheme.setting_at(elevation).gamma.red == blend_int(
            scheme.night.gamma.red as int,
            scheme.day.gamma.red as int,
            scheme.offset(elevation),
            scheme.span(),
        ),
        scheme.setting_at(elevation).gamma.green == blend_int(
            scheme.night.gamma.green as int,
            scheme.day.gamma.green as int,
            scheme.offset(elevation),
            scheme.span(),
        ),
        scheme.setting_at(elevation).gamma.blue == blend_int(
            scheme.night.gamma.blue as int,
            scheme.day.gamma.blue as int,
            scheme.offset(elevation),
            scheme.span(),
        ),
        scheme.setting_at(elevation).brightness == blend_int(
            scheme.night.brightness as int,
            scheme.day.brightness as int,
            scheme.offset(elevation),
            scheme.span(),
        ),
{
    let n = scheme.offset(elevation);
    let d = scheme.span();
    let night = scheme.night;
    let day = scheme.day;
    lemma_blend_bounds(night.temp as int, day.temp as int, n, d);
    lemma_blend_bounds(night.gamma.red as int, day.gamma.red as int, n, d);
    lemma_blend_bounds(night.gamma.green as int, day.gamma.green as int, n, d);
    lemma_blend_bounds(night.gamma.blue as int, day.gamma.blue as int, n, d);
    lemma_blend_bounds(night.brightness as int, day.brightness as int, n, d);
    lemma_blend_ends(night.temp as int, day.temp as int, d);
    lemma_blend_ends(night.gamma.red as int, day.gamma.red as int, d);
    lemma_blend_ends(night.gamma.green as int, day.gamma.green as int, d);
    lemma_blend_ends(night.gamma.blue as int, day.gamma.blue as int, d);
    lemma_blend_ends(night.brightness as int, day.brightness as int, d);
}

/// The period is exact at the ends of the transition: at `low` it is a
/// transition with no progress, at `high` one with all of it; strictly below
/// `low` it is night and strictly above `high` it is day, and nowhere else.
pub proof fn lemma_period_boundaries(scheme: TransitionScheme, elevation: int)
    requires
        scheme.ordered(),
    ensures
        scheme.period_at(scheme.low as int) == Period::Transition(0),
        scheme.period_at(scheme.high as int) == Period::Transition(SCALE),
        elevation < scheme.low <==> scheme.period_at(elevation) == Period::Night,
        elevation > scheme.high <==> scheme.period_at(elevation) == Period::Day,
        scheme.low <= elevation <= scheme.high ==> scheme.period_at(elevation)
            == Period::Transition(scheme.progress(elevation) as i64) && 0 <= scheme.progress(
            elevation,
        ) <= SCALE,
        scheme.period_at(elevation) != Period::Unknown,
{
    lemma_fraction_bounds(scheme.offset(elevation), scheme.offset(elevation), scheme.span());
}

/// The interpolation fraction is held between nothing and all for every
/// elevation, however far outside the transition it lies.
pub proof fn lemma_progress_clamped(scheme: TransitionScheme, elevation: int)
    requires
        scheme.ordered(),
    ensures
        0 <= scheme.offset(elevation) <= scheme.span(),
        0 <= scheme.progress(elevation) <= SCALE,
        elevation <= scheme.low ==> scheme.progress(elevation) == 0,
        elevation >= scheme.high ==> scheme.progress(elevation) == SCALE,
{
    lemma_fraction_bounds(scheme.offset(elevation), scheme.offset(elevation), scheme.span());
}

/// Interpolation follows the elevation: as the sun rises, the progress never
/// falls, and each field of the setting moves from its night value towards
/// its day value and never back.
pub proof fn lemma_interpolation_monotone(scheme: TransitionScheme, lower: int, upper: int)
    requires
        scheme.ordered(),
        lower <= upper,
    ensures
        scheme.progress(lower) <= scheme.progress(upper),
        scheme.night.temp <= scheme.day.temp ==> scheme.setting_at(lower).temp
            <= scheme.setting_at(upper).temp,
        scheme.night.temp >= scheme.day.temp ==> scheme.setting_at(lower).temp
            >= scheme.setting_at(upper).temp,
        scheme.night.brightness <= scheme.day.brightness ==> scheme.setting_at(lower).brightness
            <= scheme.setting_at(upper).brightness,
        scheme.night.brightness >= scheme.day.brightness ==> scheme.setting_at(lower).brightness
            >= scheme.setting_at(upper).brightness,
        scheme.night.gamma.red <= scheme.day.gamma.red ==> scheme.setting_at(lower).gamma.red
            <= scheme.setting_at(upper).gamma.red,
        scheme.night.gamma.red >= scheme.day.gamma.red ==> scheme.setting_at(lower).gamma.red
            >= scheme.setting_at(upper).gamma.red,
        scheme.night.gamma.green <= scheme.day.gamma.green ==> scheme.setting_at(
            lower,
        ).gamma.green <= scheme.setting_at(upper).gamma.green,
        scheme.night.gamma.green >= scheme.day.gamma.green ==> scheme.setting_at(
            lower,
        ).gamma.green >= scheme.setting_at(upper).gamma.green,
        scheme.night.gamma.blue <= scheme.day.gamma.blue ==> scheme.setting_at(lower).gamma.blue
            <= scheme.setting_at(upper).gamma.blue,
        scheme.night.gamma.blue >= scheme.day.gamma.blue ==> scheme.setting_at(lower).gamma.blue
            >= scheme.setting_at(upper).gamma.blue,
{
    let n1 = scheme.offset(lower);
    let n2 = scheme.offset(upper);
    let d = scheme.span();
    let night = scheme.night;
    let day = scheme.day;
    lemma_fraction_bounds(n1, n2, d);
    lemma_setting_at_ends(scheme, lower);
    lemma_setting_at_ends(scheme, upper);
    lemma_blend_monotone(night.temp as int, day.temp as int, n1, n2, d);
    lemma_blend_monotone(night.brightness as int, day.brightness as int, n1, n2, d);
    lemma_blend_monotone(night.gamma.red as int, day.gamma.red as int, n1, n2, d);
    lemma_blend_monotone(night.gamma.green as int, day.gamma.green as int, n1, n2, d);
    lemma_blend_monotone(night.gamma.blue as int, day.gamma.blue as int, n1, n2, d);
}

/// A step keeps the scheme's invariant, and a fade that still runs after it
/// stands strictly between the two ends.
pub proof fn lemma_stepped_wf(scheme: TransitionScheme)
    requires
        scheme.wf(),
    ensures
        scheme.stepped().wf(),
        scheme.stepped().high == scheme.high,
        scheme.stepped().low == scheme.low,
        scheme.stepped().day == scheme.day,
        scheme.stepped().night == scheme.night,
        scheme.stepped().short_trans_len == scheme.short_trans_len,
        scheme.stepped().fading() ==> 0 < scheme.stepped().adjustment_alpha < SCALE,
        scheme.stepped().fading() ==> scheme.stepped().short_trans_delta
            == scheme.short_trans_delta,
{
}

/// Once the fade has stopped it stays stopped: every further step leaves the
/// whole scheme, `adjustment_alpha` included, as it is.
pub proof fn lemma_fade_idempotent(scheme: TransitionScheme)
    requires
        scheme.wf(),
    ensures
        !scheme.fading() ==> scheme.stepped() == scheme,
        !scheme.stepped().fading() ==> scheme.stepped().stepped() == scheme.stepped(),
        !scheme.stepped().fading() ==> scheme.stepped().stepped().adjustment_alpha
            == scheme.stepped().adjustment_alpha,
{
}

/// A running fade moves at every step: upwards by at least one millionth
/// where its direction is positive, downwards where it is negative, until it
/// stops at the end it was heading for.
pub proof fn lemma_fade_progress(scheme: TransitionScheme)
    requires
        scheme.wf(),
        scheme.fading(),
    ensures
        scheme.short_trans_delta > 0 && scheme.stepped().fading()
            ==> scheme.stepped().adjustment_alpha > scheme.adjustment_alpha,
        scheme.short_trans_delta < 0 && scheme.stepped().fading()
            ==> scheme.stepped().adjustment_alpha < scheme.adjustment_alpha,
        scheme.short_trans_delta > 0 && !scheme.stepped().fading()
            ==> scheme.stepped().adjustment_alpha == SCALE,
        scheme.short_trans_delta < 0 && !scheme.stepped().fading()
            ==> scheme.stepped().adjustment_alpha == 0,
{
    if scheme.short_trans_len > 0 {
        lemma_fade_step_bounds(scheme);
    }
}

} // verus!

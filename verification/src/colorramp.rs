//! Gamma ramps for a colour setting: the white point of a colour temperature,
//! looked up in a table of black-body colours, and the ramp that results when
//! a captured ramp is tinted by it.
//!
//! Multipliers, gamma and brightness are millionths of one; ramp values are
//! the sixteen-bit levels that a display takes.

use vstd::prelude::*;
use crate::fixed::{
    blend, blend_int, lemma_blend_bounds, lemma_blend_ends, lemma_blend_monotone, max_int,
    min_int, SCALE,
};
use crate::transition::{ColorSetting, Rgb, NEUTRAL_TEMP};

verus! {

/// Lowest colour temperature, in Kelvin, that the table covers.
pub const MIN_TEMP: i32 = 1000;

/// Highest colour temperature, in Kelvin, that the table covers.
pub const MAX_TEMP: i32 = 25000;

/// Kelvin between two neighbouring entries of the table.
pub const TABLE_STEP: i32 = 100;

/// Number of entries in the table: one for each step from `MIN_TEMP` to
/// `MAX_TEMP`, both included.
pub const TABLE_LEN: usize = 241;

/// Place of the neutral temperature in the table.
pub const NEUTRAL_INDEX: usize = 55;

/// Smallest gamma correction that can be applied: a tenth.
pub const MIN_GAMMA: i64 = 100_000;

/// Largest gamma correction that can be applied: ten.
pub const MAX_GAMMA: i64 = 10_000_000;

/// Highest level of a ramp.
pub const RAMP_MAX: u16 = 65535;

/// One cubed, in millionths cubed: what a product of a level with three
/// fixed-point factors is divided by.
pub const SCALE_CUBED: u128 = 1_000_000_000_000_000_000;

/// Why a colour setting cannot be turned into a ramp.
#[derive(Clone, Copy, Debug, PartialEq, Eq, Structural)]
pub enum RampError {
    /// The temperature lies outside the range that the table covers.
    UnsupportedTemperature(i32),
    /// A gamma correction lies outside `[MIN_GAMMA, MAX_GAMMA]`.
    GammaOutOfRange(i64),
    /// The brightness is zero or negative.
    BrightnessNotPositive(i64),
}

/// The three ramps of one output, one level for each pixel intensity.
#[derive(Clone, Debug, PartialEq, Eq)]
pub struct GammaRamps {
    pub red: Vec<u16>,
    pub green: Vec<u16>,
    pub blue: Vec<u16>,
}

/// The table of black-body colours: the white point, as one multiplier for
/// each channel, of every hundredth Kelvin from `MIN_TEMP` to `MAX_TEMP`.
pub struct WhitePointTable {
    entries: Vec<Rgb>,
}

/// The white point that changes nothing.
pub open spec fn white() -> Rgb {
    Rgb { red: SCALE, green: SCALE, blue: SCALE }
}

/// Whether a multiplier lies between nothing and one.
pub open spec fn multiplier_ok(value: i64) -> bool {
    0 <= value <= SCALE
}

/// Whether each channel of a white point lies between nothing and one.
pub open spec fn entry_ok(entry: Rgb) -> bool {
    multiplier_ok(entry.red) && multiplier_ok(entry.green) && multiplier_ok(entry.blue)
}

/// What makes a sequence of white points a table: it covers the whole range,
/// every multiplier lies between nothing and one, and the neutral temperature
/// has the white point that changes nothing.
pub open spec fn valid_entries(entries: Seq<Rgb>) -> bool {
    &&& entries.len() == TABLE_LEN
    &&& forall|i: int| 0 <= i < entries.len() ==> entry_ok(#[trigger] entries[i])
    &&& entries[NEUTRAL_INDEX as int] == white()
}

/// Whether the table covers `temp`.
pub open spec fn supported(temp: int) -> bool {
    MIN_TEMP <= temp <= MAX_TEMP
}

/// Place in the table of the entry at or just below `temp`.
pub open spec fn slot(temp: int) -> int {
    (temp - MIN_TEMP) / (TABLE_STEP as int)
}

/// Kelvin by which `temp` lies above the entry at `slot(temp)`.
pub open spec fn above_slot(temp: int) -> int {
    (temp - MIN_TEMP) % (TABLE_STEP as int)
}

/// The white point of `temp`: the entry of the table where `temp` is one of
/// its temperatures, and between two entries the blend of the two in
/// proportion to the distance.
pub open spec fn white_point(entries: Seq<Rgb>, temp: int) -> Rgb {
    let low = entries[slot(temp)];
    if above_slot(temp) == 0 {
        low
    } else {
        let high = entries[slot(temp) + 1];
        Rgb {
            red: blend_int(low.red as int, high.red as int, above_slot(temp), TABLE_STEP as int)
                as i64,
            green: blend_int(
                low.green as int,
                high.green as int,
                above_slot(temp),
                TABLE_STEP as int,
            ) as i64,
            blue: blend_int(
                low.blue as int,
                high.blue as int,
                above_slot(temp),
                TABLE_STEP as int,
            ) as i64,
        }
    }
}

/// The level that results from `base` under a multiplier, a gamma correction
/// and a brightness, none of them negative: their product, cut to a whole
/// level and held at the highest level.
pub open spec fn ramp_value(base: int, multiplier: int, gamma: int, brightness: int) -> int {
    min_int((base * multiplier * gamma * brightness) / (SCALE_CUBED as int), RAMP_MAX as int)
}

/// A ramp with every level of `base` tinted by `ramp_value`.
pub open spec fn tinted(base: Seq<u16>, multiplier: int, gamma: int, brightness: int) -> Seq<u16> {
    Seq::new(
        base.len(),
        |i: int| ramp_value(base[i] as int, multiplier, gamma, brightness) as u16,
    )
}

/// The straight ramp of `size` levels, which rises evenly from nothing.
pub open spec fn linear(size: int) -> Seq<u16> {
    Seq::new(size as nat, |i: int| ((i * (RAMP_MAX as int)) / size) as u16)
}

/// Whether a setting can be applied: the table covers its temperature, each
/// gamma correction lies in `[MIN_GAMMA, MAX_GAMMA]`, and the brightness is
/// positive.
pub open spec fn appliable(setting: ColorSetting) -> bool {
    &&& supported(setting.temp as int)
    &&& MIN_GAMMA <= setting.gamma.red <= MAX_GAMMA
    &&& MIN_GAMMA <= setting.gamma.green <= MAX_GAMMA
    &&& MIN_GAMMA <= setting.gamma.blue <= MAX_GAMMA
    &&& setting.brightness > 0
}

/// The first reason, in the order temperature, red, green, blue, brightness,
/// for which a setting cannot be applied.
pub open spec fn refusal(setting: ColorSetting) -> Option<RampError> {
    if !supported(setting.temp as int) {
        Some(RampError::UnsupportedTemperature(setting.temp))
    } else if !(MIN_GAMMA <= setting.gamma.red <= MAX_GAMMA) {
        Some(RampError::GammaOutOfRange(setting.gamma.red))
    } else if !(MIN_GAMMA <= setting.gamma.green <= MAX_GAMMA) {
        Some(RampError::GammaOutOfRange(setting.gamma.green))
    } else if !(MIN_GAMMA <= setting.gamma.blue <= MAX_GAMMA) {
        Some(RampError::GammaOutOfRange(setting.gamma.blue))
    } else if setting.brightness <= 0 {
        Some(RampError::BrightnessNotPositive(setting.brightness))
    } else {
        None
    }
}

impl View for WhitePointTable {
    type V = Seq<Rgb>;

    closed spec fn view(&self) -> Seq<Rgb> {
        self.entries@
    }
}

impl WhitePointTable {
    /// The table's invariant.
    pub open spec fn wf(&self) -> bool {
        valid_entries(self@)
    }

    /// Makes a table of `entries`, which begin at `MIN_TEMP`. Refused exactly
    /// when they are not `TABLE_LEN` white points with multipliers between
    /// nothing and one and with white at the neutral temperature.
    pub fn from_entries(entries: Vec<Rgb>) -> (out: Option<WhitePointTable>)
        ensures
            out.is_some() == valid_entries(entries@),
            out.is_some() ==> out.unwrap()@ == entries@ && out.unwrap().wf(),
    {
        if entries.len() != TABLE_LEN {
            return None;
        }
        let mut i: usize = 0;
        while i < entries.len()
            invariant
                i <= entries.len(),
                entries.len() == TABLE_LEN,
                forall|j: int| 0 <= j < i ==> entry_ok(#[trigger] entries@[j]),
            decreases entries.len() - i,
        {
            let entry = entries[i];
            if !(0 <= entry.red && entry.red <= SCALE && 0 <= entry.green && entry.green <= SCALE
                && 0 <= entry.blue && entry.blue <= SCALE) {
                assert(!entry_ok(entries@[i as int]));
                return None;
            }
            i = i + 1;
        }
        let neutral = entries[NEUTRAL_INDEX];
        if neutral.red != SCALE || neutral.green != SCALE || neutral.blue != SCALE {
            return None;
        }
        Some(WhitePointTable { entries })
    }

    /// The entry for the temperature `MIN_TEMP + index * TABLE_STEP`.
    pub fn entry(&self, index: usize) -> (out: Rgb)
        requires
            self.wf(),
            index < TABLE_LEN,
        ensures
            out == self@[index as int],
            entry_ok(out),
    {
        self.entries[index]
    }

    /// The white point of `temp`; none exactly when the table does not cover
    /// `temp`.
    pub fn multipliers(&self, temp: i32) -> (out: Option<Rgb>)
        requires
            self.wf(),
        ensures
            out.is_some() == supported(temp as int),
            out.is_some() ==> out.unwrap() == white_point(self@, temp as int) && entry_ok(
                out.unwrap(),
            ),
            temp == NEUTRAL_TEMP ==> out == Some(white()),
    {
        if temp < MIN_TEMP || temp > MAX_TEMP {
            return None;
        }
        let offset: i32 = temp - MIN_TEMP;
        let index: usize = (offset / TABLE_STEP) as usize;
        let above: i32 = offset % TABLE_STEP;
        let low = self.entries[index];
        if above == 0 {
            return Some(low);
        }
        let high = self.entries[index + 1];
        let n: u64 = above as u64;
        let d: u64 = TABLE_STEP as u64;
        Some(
            Rgb {
                red: blend(low.red, high.red, n, d),
                green: blend(low.green, high.green, n, d),
                blue: blend(low.blue, high.blue, n, d),
            },
        )
    }
}

/// Tells why `setting` cannot be applied, if it cannot.
pub fn check_setting(setting: &ColorSetting) -> (out: Result<(), RampError>)
    ensures
        out.is_ok() == appliable(*setting),
        out.is_err() ==> Some(out.unwrap_err()) == refusal(*setting),
        out.is_ok() ==> refusal(*setting).is_none(),
{
    if setting.temp < MIN_TEMP || setting.temp > MAX_TEMP {
        Err(RampError::UnsupportedTemperature(setting.temp))
    } else if setting.gamma.red < MIN_GAMMA || setting.gamma.red > MAX_GAMMA {
        Err(RampError::GammaOutOfRange(setting.gamma.red))
    } else if setting.gamma.green < MIN_GAMMA || setting.gamma.green > MAX_GAMMA {
        Err(RampError::GammaOutOfRange(setting.gamma.green))
    } else if setting.gamma.blue < MIN_GAMMA || setting.gamma.blue > MAX_GAMMA {
        Err(RampError::GammaOutOfRange(setting.gamma.blue))
    } else if setting.brightness <= 0 {
        Err(RampError::BrightnessNotPositive(setting.brightness))
    } else {
        Ok(())
    }
}

/// The level that results from `base` under a multiplier, a gamma correction
/// and a brightness.
pub fn scale_level(base: u16, multiplier: i64, gamma: i64, brightness: i64) -> (out: u16)
    requires
        multiplier_ok(multiplier),
        MIN_GAMMA <= gamma <= MAX_GAMMA,
        brightness > 0,
    ensures
        out == ramp_value(base as int, multiplier as int, gamma as int, brightness as int),
{
    proof {
        assert(0 <= base * multiplier <= 65535 * 1_000_000) by (nonlinear_arith)
            requires
                0 <= base <= 65535,
                0 <= multiplier <= 1_000_000,
        ;
        assert(0 <= base * multiplier * gamma <= 65535 * 1_000_000 * 10_000_000)
            by (nonlinear_arith)
            requires
                0 <= base * multiplier <= 65535 * 1_000_000,
                0 <= gamma <= 10_000_000,
        ;
        assert(0 <= base * multiplier * gamma * brightness <= 65535 * 1_000_000 * 10_000_000
            * 0x8000_0000_0000_0000) by (nonlinear_arith)
            requires
                0 <= base * multiplier * gamma <= 65535 * 1_000_000 * 10_000_000,
                0 <= brightness <= 0x8000_0000_0000_0000,
        ;
    }
    let first: u128 = (base as u128) * (multiplier as u128);
    let second: u128 = first * (gamma as u128);
    let third: u128 = second * (brightness as u128);
    let level: u128 = third / SCALE_CUBED;
    if level > RAMP_MAX as u128 {
        RAMP_MAX
    } else {
        level as u16
    }
}

/// Tints every level of `ramp` in place.
pub fn fill_channel(ramp: &mut Vec<u16>, multiplier: i64, gamma: i64, brightness: i64)
    requires
        multiplier_ok(multiplier),
        MIN_GAMMA <= gamma <= MAX_GAMMA,
        brightness > 0,
    ensures
        final(ramp)@ == tinted(old(ramp)@, multiplier as int, gamma as int, brightness as int),
        final(ramp)@.len() == old(ramp)@.len(),
{
    let ghost before = ramp@;
    let mut i: usize = 0;
    while i < ramp.len()
        invariant
            i <= ramp.len(),
            ramp@.len() == before.len(),
            multiplier_ok(multiplier),
            MIN_GAMMA <= gamma <= MAX_GAMMA,
            brightness > 0,
            forall|j: int|
                0 <= j < i ==> ramp@[j] == ramp_value(
                    before[j] as int,
                    multiplier as int,
                    gamma as int,
                    brightness as int,
                ) as u16,
            forall|j: int| i <= j < ramp@.len() ==> ramp@[j] == before[j],
        decreases ramp.len() - i,
    {
        let level = scale_level(ramp[i], multiplier, gamma, brightness);
        ramp.set(i, level);
        i = i + 1;
    }
    assert(ramp@ =~= tinted(before, multiplier as int, gamma as int, brightness as int));
}

/// Turns the three ramps into those that show `setting`: each level is
/// multiplied by the white point of the setting's temperature, by the gamma
/// correction of its channel and by the brightness. A setting that cannot be
/// applied is refused, and the ramps stay as they are.
pub fn colorramp_fill(
    red: &mut Vec<u16>,
    green: &mut Vec<u16>,
    blue: &mut Vec<u16>,
    setting: &ColorSetting,
    table: &WhitePointTable,
) -> (out: Result<(), RampError>)
    requires
        table.wf(),
    ensures
        out.is_ok() == appliable(*setting),
        out.is_err() ==> Some(out.unwrap_err()) == refusal(*setting),
        out.is_err() ==> final(red)@ == old(red)@ && final(green)@ == old(green)@ && final(blue)@
            == old(blue)@,
        out.is_ok() ==> final(red)@ == tinted(
            old(red)@,
            white_point(table@, setting.temp as int).red as int,
            setting.gamma.red as int,
            setting.brightness as int,
        ),
        out.is_ok() ==> final(green)@ == tinted(
            old(green)@,
            white_point(table@, setting.temp as int).green as int,
            setting.gamma.green as int,
            setting.brightness as int,
        ),
        out.is_ok() ==> final(blue)@ == tinted(
            old(blue)@,
            white_point(table@, setting.temp as int).blue as int,
            setting.gamma.blue as int,
            setting.brightness as int,
        ),
{
    match check_setting(setting) {
        Err(e) => Err(e),
        Ok(()) => {
            let white_point = table.multipliers(setting.temp).unwrap();
            fill_channel(red, white_point.red, setting.gamma.red, setting.brightness);
            fill_channel(green, white_point.green, setting.gamma.green, setting.brightness);
            fill_channel(blue, white_point.blue, setting.gamma.blue, setting.brightness);
            Ok(())
        },
    }
}

/// The straight ramp of `size` levels.
pub fn linear_ramp(size: u32) -> (out: Vec<u16>)
    ensures
        out@ == linear(size as int),
        out@.len() == size,
{
    let mut ramp: Vec<u16> = Vec::new();
    let mut i: u32 = 0;
    while i < size
        invariant
            i <= size,
            ramp@.len() == i,
            forall|j: int| 0 <= j < i ==> ramp@[j] == ((j * (RAMP_MAX as int)) / (size as int)) as u16,
        decreases size - i,
    {
        let level: u64 = (i as u64) * (RAMP_MAX as u64) / (size as u64);
        proof {
            assert(i * 65535 <= size * 65535) by (nonlinear_arith)
                requires
                    i <= size,
            ;
            vstd::arithmetic::div_mod::lemma_div_is_ordered(
                i * 65535,
                size * 65535,
                size as int,
            );
            vstd::arithmetic::div_mod::lemma_div_multiples_vanish(65535, size as int);
        }
        ramp.push(level as u16);
        i = i + 1;
    }
    assert(ramp@ =~= linear(size as int));
    ramp
}

/// The white point of `temp` as the blend that it is: between the entry at
/// or below `temp` and the next one, channel by channel.
proof fn lemma_white_point_channels(entries: Seq<Rgb>, temp: int)
    requires
        valid_entries(entries),
        supported(temp),
        temp < MAX_TEMP,
    ensures
        0 <= slot(temp) < TABLE_LEN - 1,
        0 <= above_slot(temp) < TABLE_STEP,
        temp == MIN_TEMP + slot(temp) * TABLE_STEP + above_slot(temp),
        white_point(entries, temp).red == blend_int(
            entries[slot(temp)].red as int,
            entries[slot(temp) + 1].red as int,
            above_slot(temp),
            TABLE_STEP as int,
        ),
        white_point(entries, temp).green == blend_int(
            entries[slot(temp)].green as int,
            entries[slot(temp) + 1].green as int,
            above_slot(temp),
            TABLE_STEP as int,
        ),
        white_point(entries, temp).blue == blend_int(
            entries[slot(temp)].blue as int,
            entries[slot(temp) + 1].blue as int,
            above_slot(temp),
            TABLE_STEP as int,
        ),
{
    let low = entries[slot(temp)];
    let high = entries[slot(temp) + 1];
    assert(entry_ok(low));
    assert(entry_ok(high));
    lemma_blend_bounds(low.red as int, high.red as int, above_slot(temp), 100);
    lemma_blend_bounds(low.green as int, high.green as int, above_slot(temp), 100);
    lemma_blend_bounds(low.blue as int, high.blue as int, above_slot(temp), 100);
    lemma_blend_ends(low.red as int, high.red as int, 100);
    lemma_blend_ends(low.green as int, high.green as int, 100);
    lemma_blend_ends(low.blue as int, high.blue as int, 100);
}

/// At the neutral temperature the white point is exactly one on every
/// channel.
pub proof fn lemma_neutral_white_point(entries: Seq<Rgb>)
    requires
        valid_entries(entries),
    ensures
        supported(NEUTRAL_TEMP as int),
        white_point(entries, NEUTRAL_TEMP as int) == white(),
{
}

/// At each temperature of the table the white point is exactly the table's
/// entry: nothing is lost at the joints between two stretches.
pub proof fn lemma_white_point_at_entry(entries: Seq<Rgb>, index: int)
    requires
        valid_entries(entries),
        0 <= index < TABLE_LEN,
    ensures
        supported(MIN_TEMP + index * TABLE_STEP),
        white_point(entries, MIN_TEMP + index * TABLE_STEP) == entries[index],
{
}

/// Between two neighbouring entries the white point never leaves the
/// interval that the two span, on any channel, and every multiplier lies
/// between nothing and one.
pub proof fn lemma_white_point_between(entries: Seq<Rgb>, temp: int)
    requires
        valid_entries(entries),
        supported(temp),
        temp < MAX_TEMP,
    ensures
        entry_ok(white_point(entries, temp)),
        min_int(entries[slot(temp)].red as int, entries[slot(temp) + 1].red as int) <= white_point(
            entries,
            temp,
        ).red <= max_int(entries[slot(temp)].red as int, entries[slot(temp) + 1].red as int),
        min_int(entries[slot(temp)].green as int, entries[slot(temp) + 1].green as int)
            <= white_point(entries, temp).green <= max_int(
            entries[slot(temp)].green as int,
            entries[slot(temp) + 1].green as int,
        ),
        min_int(entries[slot(temp)].blue as int, entries[slot(temp) + 1].blue as int)
            <= white_point(entries, temp).blue <= max_int(
            entries[slot(temp)].blue as int,
            entries[slot(temp) + 1].blue as int,
        ),
{
    lemma_white_point_channels(entries, temp);
    let low = entries[slot(temp)];
    let high = entries[slot(temp) + 1];
    assert(entry_ok(low));
    assert(entry_ok(high));
    lemma_blend_bounds(low.red as int, high.red as int, above_slot(temp), 100);
    lemma_blend_bounds(low.green as int, high.green as int, above_slot(temp), 100);
    lemma_blend_bounds(low.blue as int, high.blue as int, above_slot(temp), 100);
}

/// Within one stretch of the table the white point moves from the lower
/// entry towards the upper one and never back: for two temperatures `cooler
/// <= warmer` between the same two entries, each channel at `warmer` lies on
/// the upper entry's side of the channel at `cooler`. So from one
/// temperature to another the white point changes by no more than the two
/// entries differ.
pub proof fn lemma_white_point_monotone(entries: Seq<Rgb>, cooler: int, warmer: int)
    requires
        valid_entries(entries),
        supported(cooler),
        cooler <= warmer < MAX_TEMP,
        slot(cooler) == slot(warmer),
    ensures
        entries[slot(cooler)].red <= entries[slot(cooler) + 1].red ==> white_point(
            entries,
            cooler,
        ).red <= white_point(entries, warmer).red <= entries[slot(cooler) + 1].red,
        entries[slot(cooler)].red >= entries[slot(cooler) + 1].red ==> white_point(
            entries,
            cooler,
        ).red >= white_point(entries, warmer).red >= entries[slot(cooler) + 1].red,
        entries[slot(cooler)].green <= entries[slot(cooler) + 1].green ==> white_point(
            entries,
            cooler,
        ).green <= white_point(entries, warmer).green <= entries[slot(cooler) + 1].green,
        entries[slot(cooler)].green >= entries[slot(cooler) + 1].green ==> white_point(
            entries,
            cooler,
        ).green >= white_point(entries, warmer).green >= entries[slot(cooler) + 1].green,
        entries[slot(cooler)].blue <= entries[slot(cooler) + 1].blue ==> white_point(
            entries,
            cooler,
        ).blue <= white_point(entries, warmer).blue <= entries[slot(cooler) + 1].blue,
        entries[slot(cooler)].blue >= entries[slot(cooler) + 1].blue ==> white_point(
            entries,
            cooler,
        ).blue >= white_point(entries, warmer).blue >= entries[slot(cooler) + 1].blue,
{
    lemma_white_point_channels(entries, cooler);
    lemma_white_point_channels(entries, warmer);
    lemma_white_point_between(entries, warmer);
    let low = entries[slot(cooler)];
    let high = entries[slot(cooler) + 1];
    let n1 = above_slot(cooler);
    let n2 = above_slot(warmer);
    lemma_blend_monotone(low.red as int, high.red as int, n1, n2, 100);
    lemma_blend_monotone(low.green as int, high.green as int, n1, n2, 100);
    lemma_blend_monotone(low.blue as int, high.blue as int, n1, n2, 100);
}

/// From one Kelvin to the next the white point makes no jump greater than
/// the step between the two entries of the table around it: on each channel
/// it moves towards the upper entry, by no more than the two entries
/// differ. This holds at the joints of the table too, where the upper
/// temperature is an entry's own.
pub proof fn lemma_white_point_step(entries: Seq<Rgb>, temp: int)
    requires
        valid_entries(entries),
        supported(temp),
        temp < MAX_TEMP,
    ensures
        supported(temp + 1),
        max_int(white_point(entries, temp).red as int, white_point(entries, temp + 1).red as int)
            - min_int(
            white_point(entries, temp).red as int,
            white_point(entries, temp + 1).red as int,
        ) <= max_int(entries[slot(temp)].red as int, entries[slot(temp) + 1].red as int) - min_int(
            entries[slot(temp)].red as int,
            entries[slot(temp) + 1].red as int,
        ),
        max_int(
            white_point(entries, temp).green as int,
            white_point(entries, temp + 1).green as int,
        ) - min_int(
            white_point(entries, temp).green as int,
            white_point(entries, temp + 1).green as int,
        ) <= max_int(entries[slot(temp)].green as int, entries[slot(temp) + 1].green as int)
            - min_int(entries[slot(temp)].green as int, entries[slot(temp) + 1].green as int),
        max_int(white_point(entries, temp).blue as int, white_point(entries, temp + 1).blue as int)
            - min_int(
            white_point(entries, temp).blue as int,
            white_point(entries, temp + 1).blue as int,
        ) <= max_int(entries[slot(temp)].blue as int, entries[slot(temp) + 1].blue as int)
            - min_int(entries[slot(temp)].blue as int, entries[slot(temp) + 1].blue as int),
        entries[slot(temp)].red <= entries[slot(temp) + 1].red ==> white_point(entries, temp).red
            <= white_point(entries, temp + 1).red,
        entries[slot(temp)].red >= entries[slot(temp) + 1].red ==> white_point(entries, temp).red
            >= white_point(entries, temp + 1).red,
        entries[slot(temp)].green <= entries[slot(temp) + 1].green ==> white_point(
            entries,
            temp,
        ).green <= white_point(entries, temp + 1).green,
        entries[slot(temp)].green >= entries[slot(temp) + 1].green ==> white_point(
            entries,
            temp,
        ).green >= white_point(entries, temp + 1).green,
        entries[slot(temp)].blue <= entries[slot(temp) + 1].blue ==> white_point(entries, temp).blue
            <= white_point(entries, temp + 1).blue,
        entries[slot(temp)].blue >= entries[slot(temp) + 1].blue ==> white_point(entries, temp).blue
            >= white_point(entries, temp + 1).blue,
{
    lemma_white_point_between(entries, temp);
    if above_slot(temp) < TABLE_STEP - 1 {
        assert(slot(temp + 1) == slot(temp));
        lemma_white_point_between(entries, temp + 1);
        lemma_white_point_monotone(entries, temp, temp + 1);
    } else {
        assert(slot(temp + 1) == slot(temp) + 1);
        assert(above_slot(temp + 1) == 0);
        assert(white_point(entries, temp + 1) == entries[slot(temp) + 1]);
    }
}

/// Under the white point that changes nothing, a gamma of one and a
/// brightness of one, every level stays what it was: the captured
/// calibration of a display is kept.
pub proof fn lemma_ramp_value_neutral(base: int)
    requires
        0 <= base <= RAMP_MAX,
    ensures
        ramp_value(base, SCALE as int, SCALE as int, SCALE as int) == base,
{
    assert(base * 1_000_000 * 1_000_000 * 1_000_000 == 1_000_000_000_000_000_000 * base)
        by (nonlinear_arith);
    vstd::arithmetic::div_mod::lemma_div_multiples_vanish(base, 1_000_000_000_000_000_000);
}

/// A tint keeps the order of the levels: a higher level never comes out
/// below a lower one.
pub proof fn lemma_ramp_value_monotone(
    lower: int,
    upper: int,
    multiplier: int,
    gamma: int,
    brightness: int,
)
    requires
        0 <= lower <= upper,
        0 <= multiplier,
        0 <= gamma,
        0 <= brightness,
    ensures
        0 <= ramp_value(lower, multiplier, gamma, brightness) <= ramp_value(
            upper,
            multiplier,
            gamma,
            brightness,
        ) <= RAMP_MAX,
{
    let factor = multiplier * gamma * brightness;
    assert(0 <= multiplier * gamma) by (nonlinear_arith)
        requires
            0 <= multiplier,
            0 <= gamma,
    ;
    assert(0 <= factor) by (nonlinear_arith)
        requires
            0 <= multiplier * gamma,
            0 <= brightness,
            factor == multiplier * gamma * brightness,
    ;
    assert(lower * multiplier * gamma * brightness == lower * factor) by (nonlinear_arith)
        requires
            factor == multiplier * gamma * brightness,
    ;
    assert(upper * multiplier * gamma * brightness == upper * factor) by (nonlinear_arith)
        requires
            factor == multiplier * gamma * brightness,
    ;
    assert(0 <= lower * factor <= upper * factor) by (nonlinear_arith)
        requires
            0 <= lower <= upper,
            0 <= factor,
    ;
    vstd::arithmetic::div_mod::lemma_div_is_ordered(
        0,
        lower * factor,
        1_000_000_000_000_000_000,
    );
    vstd::arithmetic::div_mod::lemma_div_is_ordered(
        lower * factor,
        upper * factor,
        1_000_000_000_000_000_000,
    );
}

/// The neutral setting turns every ramp into itself.
pub proof fn lemma_tinted_neutral(base: Seq<u16>)
    ensures
        tinted(base, SCALE as int, SCALE as int, SCALE as int) == base,
{
    assert forall|i: int| 0 <= i < base.len() implies ramp_value(
        base[i] as int,
        SCALE as int,
        SCALE as int,
        SCALE as int,
    ) as u16 == base[i] by {
        lemma_ramp_value_neutral(base[i] as int);
    }
    assert(tinted(base, SCALE as int, SCALE as int, SCALE as int) =~= base);
}

} // verus!

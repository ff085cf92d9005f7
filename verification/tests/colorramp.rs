use redshift_rs::colorramp::{
    check_setting, colorramp_fill, fill_channel, linear_ramp, scale_level, RampError,
    WhitePointTable, MAX_GAMMA, MAX_TEMP, MIN_GAMMA, MIN_TEMP, NEUTRAL_INDEX, RAMP_MAX,
    TABLE_LEN,
};
use redshift_rs::fixed::SCALE;
use redshift_rs::transition::{ColorSetting, Rgb};

/// A table that is white at and above the neutral temperature and loses blue,
/// then green, evenly below it.
fn entries() -> Vec<Rgb> {
    let mut entries = Vec::new();
    for i in 0..TABLE_LEN {
        let below = if i < NEUTRAL_INDEX { (NEUTRAL_INDEX - i) as i64 } else { 0 };
        entries.push(Rgb { red: SCALE, green: SCALE - below * 10_000, blue: SCALE - below * 18_000 });
    }
    entries
}

fn table() -> WhitePointTable {
    WhitePointTable::from_entries(entries()).unwrap()
}

fn setting(temp: i32, gamma: i64, brightness: i64) -> ColorSetting {
    ColorSetting { temp, gamma: Rgb::uniform(gamma), brightness }
}

#[test]
fn table_is_checked() {
    assert!(WhitePointTable::from_entries(entries()).is_some());
    let mut short = entries();
    short.pop();
    assert!(WhitePointTable::from_entries(short).is_none());
    let mut long = entries();
    long.push(Rgb::uniform(SCALE));
    assert!(WhitePointTable::from_entries(long).is_none());
    let mut bright = entries();
    bright[3].green = SCALE + 1;
    assert!(WhitePointTable::from_entries(bright).is_none());
    let mut dark = entries();
    dark[240].blue = -1;
    assert!(WhitePointTable::from_entries(dark).is_none());
    let mut tinted = entries();
    tinted[NEUTRAL_INDEX].blue = SCALE - 1;
    assert!(WhitePointTable::from_entries(tinted).is_none());
    assert!(WhitePointTable::from_entries(Vec::new()).is_none());
}

#[test]
fn neutral_temperature_is_white() {
    let t = table();
    assert_eq!(t.multipliers(6500), Some(Rgb::uniform(SCALE)));
    assert_eq!(t.entry(NEUTRAL_INDEX), Rgb::uniform(SCALE));
}

#[test]
fn multipliers_are_exact_at_entries() {
    let t = table();
    let e = entries();
    for i in 0..TABLE_LEN {
        let temp = MIN_TEMP + 100 * i as i32;
        assert_eq!(t.multipliers(temp), Some(e[i]));
        assert_eq!(t.entry(i), e[i]);
    }
    assert_eq!(t.multipliers(1000), Some(Rgb { red: SCALE, green: 450_000, blue: 10_000 }));
    assert_eq!(t.multipliers(MAX_TEMP), Some(Rgb::uniform(SCALE)));
}

#[test]
fn multipliers_blend_between_entries() {
    let t = table();
    assert_eq!(t.multipliers(6450), Some(Rgb { red: SCALE, green: 995_000, blue: 991_000 }));
    assert_eq!(t.multipliers(6401), Some(Rgb { red: SCALE, green: 990_100, blue: 982_180 }));
    assert_eq!(t.multipliers(6499), Some(Rgb { red: SCALE, green: 999_900, blue: 999_820 }));
    assert_eq!(t.multipliers(1001), Some(Rgb { red: SCALE, green: 450_100, blue: 10_180 }));
}

#[test]
fn multipliers_move_evenly_within_a_stretch() {
    let t = table();
    let mut last = t.multipliers(3400).unwrap();
    for temp in 3401..=3500 {
        let now = t.multipliers(temp).unwrap();
        assert!(now.green >= last.green && now.green - last.green <= 10_000);
        assert!(now.blue >= last.blue && now.blue - last.blue <= 18_000);
        assert_eq!(now.red, SCALE);
        last = now;
    }
    assert_eq!(last, t.entry(25));
}

#[test]
fn multipliers_outside_the_table() {
    let t = table();
    assert_eq!(t.multipliers(999), None);
    assert_eq!(t.multipliers(25_001), None);
    assert_eq!(t.multipliers(-1), None);
    assert_eq!(t.multipliers(i32::MAX), None);
    assert_eq!(t.multipliers(i32::MIN), None);
}

#[test]
fn settings_are_checked_in_order() {
    assert_eq!(check_setting(&setting(6500, SCALE, SCALE)), Ok(()));
    assert_eq!(check_setting(&setting(MIN_TEMP, MIN_GAMMA, 1)), Ok(()));
    assert_eq!(check_setting(&setting(MAX_TEMP, MAX_GAMMA, i64::MAX)), Ok(()));
    assert_eq!(
        check_setting(&setting(999, 0, 0)),
        Err(RampError::UnsupportedTemperature(999))
    );
    assert_eq!(
        check_setting(&setting(25_001, SCALE, SCALE)),
        Err(RampError::UnsupportedTemperature(25_001))
    );
    assert_eq!(
        check_setting(&setting(6500, MIN_GAMMA - 1, 0)),
        Err(RampError::GammaOutOfRange(MIN_GAMMA - 1))
    );
    let mut green = setting(6500, SCALE, SCALE);
    green.gamma.green = MAX_GAMMA + 1;
    assert_eq!(check_setting(&green), Err(RampError::GammaOutOfRange(MAX_GAMMA + 1)));
    let mut blue = setting(6500, SCALE, SCALE);
    blue.gamma.blue = -1;
    assert_eq!(check_setting(&blue), Err(RampError::GammaOutOfRange(-1)));
    assert_eq!(
        check_setting(&setting(6500, SCALE, 0)),
        Err(RampError::BrightnessNotPositive(0))
    );
    assert_eq!(
        check_setting(&ColorSetting::new()),
        Err(RampError::UnsupportedTemperature(-1))
    );
}

#[test]
fn levels_are_scaled_and_held() {
    assert_eq!(scale_level(40_000, SCALE, SCALE, SCALE), 40_000);
    assert_eq!(scale_level(40_000, 500_000, SCALE, SCALE), 20_000);
    assert_eq!(scale_level(40_000, 500_000, 2_000_000, 500_000), 20_000);
    assert_eq!(scale_level(40_000, SCALE, 2_000_000, SCALE), RAMP_MAX);
    assert_eq!(scale_level(RAMP_MAX, SCALE, MAX_GAMMA, i64::MAX), RAMP_MAX);
    assert_eq!(scale_level(3, 333_333, SCALE, SCALE), 0);
    assert_eq!(scale_level(0, SCALE, SCALE, SCALE), 0);
    assert_eq!(scale_level(65_535, 0, SCALE, SCALE), 0);
    assert_eq!(scale_level(1000, 450_100, 1_100_000, 900_000), 445);
}

#[test]
fn neutral_fill_keeps_the_ramp() {
    let captured: Vec<u16> = (0..256u32).map(|i| (i * 257) as u16).collect();
    let mut red = captured.clone();
    let mut green = captured.clone();
    let mut blue = captured.clone();
    assert_eq!(
        colorramp_fill(&mut red, &mut green, &mut blue, &ColorSetting::neutral(), &table()),
        Ok(())
    );
    assert_eq!(red, captured);
    assert_eq!(green, captured);
    assert_eq!(blue, captured);
}

#[test]
fn fill_tints_each_channel() {
    let mut red = vec![0, 1000, 65_535];
    let mut green = vec![0, 1000, 65_535];
    let mut blue = vec![0, 1000, 65_535];
    let night = ColorSetting {
        temp: 3500,
        gamma: Rgb { red: 1_000_000, green: 1_100_000, blue: 900_000 },
        brightness: 900_000,
    };
    assert_eq!(colorramp_fill(&mut red, &mut green, &mut blue, &night, &table()), Ok(()));
    assert_eq!(red, vec![0, 900, 58_981]);
    assert_eq!(green, vec![0, 693, 45_415]);
    assert_eq!(blue, vec![0, 372, 24_418]);
}

#[test]
fn refused_fill_changes_nothing() {
    let mut red = vec![1, 2, 3];
    let mut green = vec![4, 5, 6];
    let mut blue = vec![7, 8, 9];
    assert_eq!(
        colorramp_fill(&mut red, &mut green, &mut blue, &setting(500, SCALE, SCALE), &table()),
        Err(RampError::UnsupportedTemperature(500))
    );
    assert_eq!(
        colorramp_fill(&mut red, &mut green, &mut blue, &setting(6500, SCALE, -5), &table()),
        Err(RampError::BrightnessNotPositive(-5))
    );
    assert_eq!(
        colorramp_fill(&mut red, &mut green, &mut blue, &setting(6500, 50, SCALE), &table()),
        Err(RampError::GammaOutOfRange(50))
    );
    assert_eq!((red, green, blue), (vec![1, 2, 3], vec![4, 5, 6], vec![7, 8, 9]));
}

#[test]
fn fill_channel_keeps_the_order_of_levels() {
    let mut ramp: Vec<u16> = (0..1024u32).map(|i| (i * 64) as u16).collect();
    fill_channel(&mut ramp, 700_000, 1_300_000, 950_000);
    assert_eq!(ramp.len(), 1024);
    for pair in ramp.windows(2) {
        assert!(pair[0] <= pair[1]);
    }
    assert_eq!(ramp[1], 55);
    assert_eq!(ramp[1023], 56_600);
}

#[test]
fn linear_ramp_rises_evenly() {
    assert_eq!(linear_ramp(0), Vec::<u16>::new());
    assert_eq!(linear_ramp(1), vec![0]);
    assert_eq!(linear_ramp(4), vec![0, 16_383, 32_767, 49_151]);
    let ramp = linear_ramp(256);
    assert_eq!(ramp[255], 65_279);
    assert_eq!(ramp[128], 32_767);
}

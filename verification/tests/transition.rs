use redshift_rs::fixed::{blend, fraction, SCALE};
use redshift_rs::transition::{
    ColorSetting, Period, Rgb, SchemeError, TransitionScheme, NEUTRAL_TEMP, UNSET,
};

fn setting(temp: i32, gamma: i64, brightness: i64) -> ColorSetting {
    ColorSetting { temp, gamma: Rgb::uniform(gamma), brightness }
}

fn scheme() -> TransitionScheme {
    TransitionScheme::with_thresholds(
        -6_000_000,
        3_000_000,
        setting(5500, 1_000_000, 1_000_000),
        setting(3500, 800_000, 600_000),
    )
    .unwrap()
}

#[test]
fn interpolation_end_to_end() {
    let s = scheme();
    assert_eq!(s.interpolate_color_settings(-6_000_000).temp, 3500);
    assert_eq!(s.interpolate_color_settings(3_000_000).temp, 5500);
    assert_eq!(s.interpolate_color_settings(-1_500_000).temp, 4500);
    assert_eq!(s.transition_progress(-1_500_000), 500_000);
}

#[test]
fn interpolation_blends_every_field() {
    let s = scheme();
    let mid = s.interpolate_color_settings(-1_500_000);
    assert_eq!(mid, setting(4500, 900_000, 800_000));
    let third = s.interpolate_color_settings(-3_000_000);
    assert_eq!(third.temp, 4166);
    assert_eq!(third.gamma, Rgb::uniform(866_666));
    assert_eq!(third.brightness, 733_333);
}

#[test]
fn interpolation_is_clamped_outside_the_transition() {
    let s = scheme();
    assert_eq!(s.interpolate_color_settings(-90_000_000), s.night);
    assert_eq!(s.interpolate_color_settings(i64::MIN), s.night);
    assert_eq!(s.interpolate_color_settings(90_000_000), s.day);
    assert_eq!(s.interpolate_color_settings(i64::MAX), s.day);
    assert_eq!(s.transition_progress(i64::MIN), 0);
    assert_eq!(s.transition_progress(i64::MAX), SCALE);
}

#[test]
fn interpolation_is_monotonic() {
    let s = scheme();
    let mut last = s.interpolate_color_settings(-7_000_000);
    let mut elevation = -7_000_000;
    while elevation <= 4_000_000 {
        let now = s.interpolate_color_settings(elevation);
        assert!(now.temp >= last.temp);
        assert!(now.brightness >= last.brightness);
        assert!(now.gamma.red >= last.gamma.red);
        last = now;
        elevation += 125_000;
    }
}

#[test]
fn interpolation_survives_extreme_thresholds() {
    let s = TransitionScheme::with_thresholds(
        i64::MIN,
        i64::MAX,
        setting(i32::MAX, i64::MAX, i64::MAX),
        setting(i32::MIN, i64::MIN, i64::MIN),
    )
    .unwrap();
    assert_eq!(s.interpolate_color_settings(i64::MIN).temp, i32::MIN);
    assert_eq!(s.interpolate_color_settings(i64::MAX).temp, i32::MAX);
    let mid = s.interpolate_color_settings(0);
    assert!(mid.temp == 0 || mid.temp == -1);
}

#[test]
fn period_boundaries_are_exact() {
    let s = scheme();
    assert_eq!(s.get_period(-6_000_000), Period::Transition(0));
    assert_eq!(s.get_period(3_000_000), Period::Transition(SCALE));
    assert_eq!(s.get_period(-6_000_001), Period::Night);
    assert_eq!(s.get_period(3_000_001), Period::Day);
    assert_eq!(s.get_period(-1_500_000), Period::Transition(500_000));
    assert_eq!(s.get_period(0), Period::Transition(666_666));
}

#[test]
fn thresholds_must_be_ordered() {
    let day = setting(5500, SCALE, SCALE);
    let night = setting(3500, SCALE, SCALE);
    assert_eq!(
        TransitionScheme::with_thresholds(3_000_000, 3_000_000, day, night),
        Err(SchemeError::ConfigurationInvariantViolated)
    );
    assert_eq!(
        TransitionScheme::with_thresholds(3_000_000, -6_000_000, day, night),
        Err(SchemeError::ConfigurationInvariantViolated)
    );
    assert!(TransitionScheme::with_thresholds(-6_000_000, 3_000_000, day, night).is_ok());
}

#[test]
fn new_scheme_has_the_defaults() {
    let s = TransitionScheme::new();
    assert_eq!(s.low, -6_000_000);
    assert_eq!(s.high, 3_000_000);
    assert_eq!(s.adjustment_alpha, SCALE);
    assert_eq!(s.short_trans_delta, 0);
    assert!(!s.short_transition());
    assert!(s.is_valid());
    assert_eq!(s.day, ColorSetting::new());
    assert!(!s.day.is_populated());
    assert_eq!(ColorSetting::new().temp, -1);
    assert_eq!(ColorSetting::new().brightness, UNSET);
    assert!(ColorSetting::neutral().is_populated());
    assert_eq!(ColorSetting::neutral().temp, NEUTRAL_TEMP);
}

#[test]
fn short_transition_steps_and_stops() {
    let mut s = scheme();
    s.short_trans_delta = -1;
    s.short_trans_len = 2;
    s.adjustment_alpha = 100_000;
    assert!(s.short_transition());
    s.adjust_transition_alpha();
    assert_eq!(s.adjustment_alpha, 50_000);
    assert!(s.short_transition());
    s.adjust_transition_alpha();
    assert_eq!(s.adjustment_alpha, 0);
    assert!(!s.short_transition());
}

#[test]
fn short_transition_is_idempotent_once_over() {
    let mut s = scheme();
    s.short_trans_delta = 1;
    s.short_trans_len = 1;
    s.adjustment_alpha = 950_000;
    s.adjust_transition_alpha();
    assert_eq!(s.adjustment_alpha, SCALE);
    assert_eq!(s.short_trans_delta, 0);
    let stopped = s;
    for _ in 0..5 {
        s.adjust_transition_alpha();
        assert_eq!(s, stopped);
    }
}

#[test]
fn short_transition_of_length_ten_takes_a_hundred_steps() {
    let mut s = scheme();
    s.short_trans_delta = -1;
    s.short_trans_len = 10;
    s.adjustment_alpha = SCALE;
    let mut steps = 0;
    while s.short_transition() {
        s.adjust_transition_alpha();
        steps += 1;
        assert_eq!(s.adjustment_alpha, SCALE - steps * 10_000);
    }
    assert_eq!(steps, 100);
}

#[test]
fn short_transition_of_length_zero_is_over_at_once() {
    let mut s = scheme();
    s.short_trans_delta = -3;
    s.short_trans_len = 0;
    s.adjustment_alpha = 700_000;
    s.adjust_transition_alpha();
    assert_eq!(s.adjustment_alpha, 0);
    assert_eq!(s.short_trans_delta, 0);
    s.short_trans_delta = 2;
    s.adjust_transition_alpha();
    assert_eq!(s.adjustment_alpha, SCALE);
    assert_eq!(s.short_trans_delta, 0);
}

#[test]
fn neutral_blend_leaves_gamma_alone() {
    let mut s = scheme();
    let night = s.night;
    s.adjustment_alpha = 0;
    assert_eq!(s.blend_toward_neutral(night), night);
    s.adjustment_alpha = SCALE;
    let all = s.blend_toward_neutral(night);
    assert_eq!(all.temp, NEUTRAL_TEMP);
    assert_eq!(all.brightness, SCALE);
    assert_eq!(all.gamma, night.gamma);
    s.adjustment_alpha = 50_000;
    let some = s.blend_toward_neutral(night);
    assert_eq!(some.temp, 3650);
    assert_eq!(some.brightness, 620_000);
    assert_eq!(some.gamma, night.gamma);
}

#[test]
fn blend_cuts_towards_zero() {
    assert_eq!(blend(0, 10, 1, 3), 3);
    assert_eq!(blend(0, -10, 1, 3), -3);
    assert_eq!(blend(-10, 0, 1, 3), -6);
    assert_eq!(blend(7, 7, 1, 3), 7);
    assert_eq!(blend(i64::MIN, i64::MAX, u64::MAX, u64::MAX), i64::MAX);
    assert_eq!(blend(i64::MIN, i64::MAX, 0, u64::MAX), i64::MIN);
    assert_eq!(fraction(1, 3), 333_333);
    assert_eq!(fraction(u64::MAX, u64::MAX), SCALE);
    assert_eq!(fraction(0, 7), 0);
}

use redshift_rs::solar::{
    time_angle, ASTRO_DAWN, ASTRO_DUSK, ASTRO_TWILIGHT_ELEV, CIVIL_DAWN, CIVIL_DUSK,
    CIVIL_TWILIGHT_ELEV, DAYTIME_ELEV, DEGREE, MIDNIGHT, NAUT_DAWN, NAUT_DUSK,
    NAUT_TWILIGHT_ELEV, NOON, SOLAR_ATM_REFRAC, SOLAR_TIMES, SUNRISE, SUNSET,
};

fn radians(millionths: i64) -> f64 {
    (millionths as f64 / DEGREE as f64).to_radians()
}

#[test]
fn time_angles() {
    let angles = vec![
        radians(-90 * DEGREE + ASTRO_TWILIGHT_ELEV),
        radians(-90 * DEGREE + NAUT_TWILIGHT_ELEV),
        radians(-90 * DEGREE + CIVIL_TWILIGHT_ELEV),
        radians(-90 * DEGREE + DAYTIME_ELEV),
        radians(0),
        radians(90 * DEGREE - DAYTIME_ELEV),
        radians(90 * DEGREE - CIVIL_TWILIGHT_ELEV),
        radians(90 * DEGREE - NAUT_TWILIGHT_ELEV),
        radians(90 * DEGREE - ASTRO_TWILIGHT_ELEV),
    ];
    for angle in angles {
        println!("{:?},", angle);
    }
}

#[test]
fn time_angles_match_the_table() {
    let slots = [
        ASTRO_DAWN, NAUT_DAWN, CIVIL_DAWN, SUNRISE, NOON, SUNSET, CIVIL_DUSK, NAUT_DUSK,
        ASTRO_DUSK,
    ];
    let expected = [
        -1.8849555921538759,
        -1.7802358370342162,
        -1.6755160819145565,
        -1.5853349194640094,
        0.0,
        1.5853349194640094,
        1.6755160819145565,
        1.7802358370342162,
        1.8849555921538759,
    ];
    for (slot, want) in slots.iter().zip(expected.iter()) {
        let angle = time_angle(*slot).unwrap();
        assert!((radians(angle) - want).abs() < 1e-12);
    }
    assert_eq!(time_angle(MIDNIGHT), None);
    assert_eq!(time_angle(SOLAR_TIMES), None);
}

#[test]
fn elevation_constants() {
    assert_eq!(SOLAR_ATM_REFRAC, 833_000);
    assert_eq!(ASTRO_TWILIGHT_ELEV, -18_000_000);
    assert_eq!(NAUT_TWILIGHT_ELEV, -12_000_000);
    assert_eq!(CIVIL_TWILIGHT_ELEV, -6_000_000);
    assert_eq!(DAYTIME_ELEV, -833_000);
    assert_eq!(time_angle(SUNRISE), Some(-90_833_000));
    assert_eq!(time_angle(ASTRO_DUSK), Some(108_000_000));
}

use std::collections::HashMap;

use redshift_rs::colorramp::{linear_ramp, GammaRamps, RampError, WhitePointTable, TABLE_LEN};
use redshift_rs::fixed::SCALE;
use redshift_rs::gamma::BackendError;
use redshift_rs::gamma_randr::{
    copy_levels, query_version, ramp_error_message, ConnError, CrtcGamma, RampWrite, RandrError,
    RandrState, RANDR_MAJOR_VERSION, RANDR_MINOR_VERSION,
};
use redshift_rs::transition::{ColorSetting, Rgb};

fn table() -> WhitePointTable {
    let mut entries = Vec::new();
    for i in 0..TABLE_LEN {
        let below = if i < 55 { (55 - i) as i64 } else { 0 };
        entries.push(Rgb { red: SCALE, green: SCALE - below * 10_000, blue: SCALE - below * 18_000 });
    }
    WhitePointTable::from_entries(entries).unwrap()
}

fn ramps(size: u32, bend: u32) -> GammaRamps {
    let curve = |k: u32| -> Vec<u16> {
        (0..size).map(|i| ((i * 65_535 / size) as u16).saturating_sub((k * bend) as u16)).collect()
    };
    GammaRamps { red: curve(0), green: curve(1), blue: curve(2) }
}

fn display() -> Vec<CrtcGamma> {
    vec![
        CrtcGamma { crtc: 63, size: 256, ramps: ramps(256, 40) },
        CrtcGamma { crtc: 64, size: 1024, ramps: ramps(1024, 7) },
        CrtcGamma { crtc: 70, size: 2, ramps: ramps(2, 1) },
    ]
}

fn started() -> RandrState {
    let mut state = RandrState::init(0, 0x40_0001);
    state.start(&display());
    state
}

fn shown(gammas: &[CrtcGamma]) -> HashMap<u32, GammaRamps> {
    gammas.iter().map(|g| (g.crtc, g.ramps.clone())).collect()
}

fn carry_out(screen: &mut HashMap<u32, GammaRamps>, writes: Vec<RampWrite>) {
    for write in writes {
        screen.insert(write.crtc, write.ramps);
    }
}

fn setting(temp: i32, gamma: i64, brightness: i64) -> ColorSetting {
    ColorSetting { temp, gamma: Rgb::uniform(gamma), brightness }
}

#[test]
fn version_is_checked() {
    assert_eq!(query_version(1, 3), Ok(()));
    assert_eq!(query_version(1, 5), Ok(()));
    assert_eq!(query_version(RANDR_MAJOR_VERSION, RANDR_MINOR_VERSION), Ok(()));
    assert_eq!(query_version(1, u32::MAX), Ok(()));
    assert_eq!(query_version(1, 2), Err(RandrError::UnsupportedVersion(1, 2)));
    assert_eq!(query_version(0, 3), Err(RandrError::UnsupportedVersion(0, 3)));
    assert_eq!(query_version(2, 0), Err(RandrError::UnsupportedVersion(2, 0)));
    assert_eq!(query_version(2, 3), Err(RandrError::UnsupportedVersion(2, 3)));
}

#[test]
fn errors_are_made_from_their_parts() {
    assert_eq!(RandrError::generic(8), RandrError::Generic(8));
    assert_eq!(
        RandrError::conn(ConnError::ClosedInvalidScreen),
        RandrError::Conn(ConnError::ClosedInvalidScreen)
    );
    assert_eq!(RandrError::unsupported_version(1, 1), RandrError::UnsupportedVersion(1, 1));
}

#[test]
fn start_records_every_output() {
    let state = started();
    assert_eq!(state.screen_num(), 0);
    assert_eq!(state.window_dummy(), 0x40_0001);
    assert_eq!(state.crtc_count(), 3);
    let gammas = display();
    for i in 0..3 {
        let crtc = state.crtc(i);
        assert_eq!(crtc.id, gammas[i].crtc);
        assert_eq!(crtc.ramp_size, gammas[i].size as u32);
        assert_eq!(crtc.saved_ramps, gammas[i].ramps);
    }
    assert_eq!(RandrState::init(1, 2).crtc_count(), 0);
}

#[test]
fn start_again_drops_earlier_records() {
    let mut state = started();
    state.start(&display()[1..2].to_vec());
    assert_eq!(state.crtc_count(), 1);
    assert_eq!(state.crtc(0).id, 64);
}

#[test]
fn restore_round_trip() {
    let state = started();
    let t = table();
    let before = shown(&display());
    let mut screen = before.clone();
    for s in [
        setting(3500, 1_000_000, 900_000),
        setting(1000, 100_000, 1),
        setting(25_000, 10_000_000, 5_000_000),
        setting(4321, 1_234_567, 765_432),
    ] {
        carry_out(&mut screen, state.set_temperature(&s, &t).unwrap());
        assert_ne!(screen, before);
    }
    carry_out(&mut screen, state.restore());
    assert_eq!(screen, before);
    carry_out(&mut screen, state.restore());
    assert_eq!(screen, before);
}

#[test]
fn restore_leaves_other_outputs_alone() {
    let state = started();
    let mut screen = shown(&display());
    let other = ramps(16, 3);
    screen.insert(99, other.clone());
    let before = screen.clone();
    carry_out(&mut screen, state.set_temperature(&setting(2000, SCALE, SCALE), &table()).unwrap());
    assert_eq!(screen[&99], other);
    carry_out(&mut screen, state.restore());
    assert_eq!(screen, before);
}

#[test]
fn temperature_starts_from_the_captured_ramps() {
    let state = started();
    let t = table();
    let night = setting(3500, 1_000_000, 900_000);
    let first = state.set_temperature(&night, &t).unwrap();
    let _ = state.set_temperature(&setting(1200, 2_000_000, 300_000), &t).unwrap();
    let again = state.set_temperature(&night, &t).unwrap();
    assert_eq!(first, again);
    assert_eq!(first.len(), 3);
    assert_eq!(first[0].crtc, 63);
    assert_eq!(first[1].crtc, 64);
    assert_eq!(first[2].crtc, 70);
    let saved = &state.crtc(0).saved_ramps;
    for i in 0..256 {
        assert_eq!(first[0].ramps.red[i] as u64, saved.red[i] as u64 * 900_000 / 1_000_000);
        assert_eq!(
            first[0].ramps.green[i] as u64,
            saved.green[i] as u64 * 700_000 * 900_000 / 1_000_000_000_000
        );
        assert_eq!(
            first[0].ramps.blue[i] as u64,
            saved.blue[i] as u64 * 460_000 * 900_000 / 1_000_000_000_000
        );
    }
}

#[test]
fn neutral_setting_writes_the_captured_ramps() {
    let state = started();
    let writes = state.set_temperature(&ColorSetting::neutral(), &table()).unwrap();
    assert_eq!(writes, state.restore());
}

#[test]
fn output_without_captured_ramps_gets_the_straight_ramp() {
    let mut state = RandrState::init(0, 1);
    let empty = GammaRamps { red: Vec::new(), green: Vec::new(), blue: Vec::new() };
    state.start(&vec![CrtcGamma { crtc: 5, size: 4, ramps: empty.clone() }]);
    let writes = state.set_temperature(&ColorSetting::neutral(), &table()).unwrap();
    assert_eq!(writes[0].ramps.red, vec![0, 16_383, 32_767, 49_151]);
    assert_eq!(writes[0].ramps.green, linear_ramp(4));
    assert_eq!(writes[0].ramps.blue, linear_ramp(4));
    let half = state.set_temperature(&setting(6500, SCALE, 500_000), &table()).unwrap();
    assert_eq!(half[0].ramps.red, vec![0, 8191, 16_383, 24_575]);
    assert_eq!(state.restore()[0].ramps, empty);
}

#[test]
fn refused_setting_writes_nothing() {
    let state = started();
    let t = table();
    assert_eq!(
        state.set_temperature(&setting(999, SCALE, SCALE), &t),
        Err(RandrError::Setting(RampError::UnsupportedTemperature(999)))
    );
    assert_eq!(
        state.set_temperature(&setting(6500, 99_999, SCALE), &t),
        Err(RandrError::Setting(RampError::GammaOutOfRange(99_999)))
    );
    assert_eq!(
        state.set_temperature(&setting(6500, SCALE, 0), &t),
        Err(RandrError::Setting(RampError::BrightnessNotPositive(0)))
    );
    assert_eq!(
        state.set_crtc_temperature(&ColorSetting::new(), state.crtc(1), &t),
        Err(RandrError::Setting(RampError::UnsupportedTemperature(-1)))
    );
    assert_eq!(RandrState::init(0, 0).set_temperature(&setting(6500, SCALE, SCALE), &t), Ok(vec![]));
}

#[test]
fn backend_errors_are_shown_as_text() {
    assert_eq!(RandrError::Generic(8).message(), "randr error: 8");
    assert_eq!(RandrError::Generic(255).message(), "randr error: 255");
    assert_eq!(
        RandrError::Conn(ConnError::Connection).message(),
        "xcb connection errors because of socket, pipe or other stream errors"
    );
    assert_eq!(RandrError::Conn(ConnError::ClosedParseErr).message(), "ClosedParseErr");
    assert_eq!(ConnError::ClosedExtNotSupported.message(), "ClosedExtNotSupported");
    assert_eq!(ConnError::ClosedMemInsufficient.message(), "ClosedMemInsufficient");
    assert_eq!(ConnError::ClosedReqLenExceed.message(), "ClosedReqLenExceed");
    assert_eq!(ConnError::ClosedInvalidScreen.message(), "ClosedInvalidScreen");
    assert_eq!(ConnError::ClosedFdPassingFailed.message(), "ClosedFdPassingFailed");
    assert_eq!(
        RandrError::UnsupportedVersion(1, 2).message(),
        "Unsupported RandR version (1.2)"
    );
    assert_eq!(
        RandrError::UnsupportedVersion(0, 4_294_967_295).message(),
        "Unsupported RandR version (0.4294967295)"
    );
    assert_eq!(
        RandrError::Setting(RampError::UnsupportedTemperature(-1)).message(),
        "Unsupported colour temperature (-1K)"
    );
    assert_eq!(
        ramp_error_message(&RampError::GammaOutOfRange(10_500_000)),
        "Gamma value out of range (10.5)"
    );
    assert_eq!(
        ramp_error_message(&RampError::BrightnessNotPositive(0)),
        "Brightness not positive (0)"
    );
    assert_eq!(RandrError::Generic(1).description(), "RandR error");
    assert_eq!(
        BackendError::BackendUnavailable(RandrError::UnsupportedVersion(1, 1)).message(),
        "Unsupported RandR version (1.1)"
    );
    assert_eq!(
        BackendError::BackendWriteFailure(RandrError::Generic(3)).message(),
        "randr error: 3"
    );
}

#[test]
fn copies_are_exact() {
    let levels: Vec<u16> = vec![0, 1, 65_535, 7, 7];
    assert_eq!(copy_levels(&levels), levels);
    assert_eq!(copy_levels(&Vec::new()), Vec::<u16>::new());
    let r = ramps(64, 9);
    assert_eq!(r.duplicate(), r);
}

use redshift_rs::control::{
    Action, ControlLoop, Event, LoopState, EXIT_FADE_ALPHA, LONG_TICK_MS, SHORT_TICK_MS,
};
use redshift_rs::fixed::SCALE;
use redshift_rs::transition::{ColorSetting, Period, Rgb, TransitionScheme};

fn setting(temp: i32, brightness: i64) -> ColorSetting {
    ColorSetting { temp, gamma: Rgb::uniform(SCALE), brightness }
}

fn scheme() -> TransitionScheme {
    let mut s = TransitionScheme::with_thresholds(
        -6_000_000,
        3_000_000,
        setting(5500, 1_000_000),
        setting(3500, 800_000),
    )
    .unwrap();
    s.adjustment_alpha = 0;
    s
}

const IDLE: Action = Action { announce: None, apply: None, sleep_ms: None, restore: false };
const LEAVE: Action = Action { announce: None, apply: None, sleep_ms: None, restore: true };

#[test]
fn first_tick_applies_and_sleeps_long() {
    let mut l = ControlLoop::new(scheme());
    assert_eq!(l.state, LoopState::Running);
    assert_eq!(l.applied, None);
    let a = l.step(Event::Tick(-1_500_000));
    assert_eq!(
        a,
        Action {
            announce: Some(Period::Transition(500_000)),
            apply: Some(setting(4500, 900_000)),
            sleep_ms: Some(LONG_TICK_MS),
            restore: false,
        }
    );
    assert_eq!(l.state, LoopState::Running);
    assert_eq!(l.applied, Some(setting(4500, 900_000)));
    assert_eq!(l.period, Period::Transition(500_000));
}

#[test]
fn unchanged_setting_is_not_applied_again() {
    let mut l = ControlLoop::new(scheme());
    l.step(Event::Tick(40_000_000));
    let a = l.step(Event::Tick(41_000_000));
    assert_eq!(
        a,
        Action { announce: None, apply: None, sleep_ms: Some(LONG_TICK_MS), restore: false }
    );
    let b = l.step(Event::Tick(-20_000_000));
    assert_eq!(b.announce, Some(Period::Night));
    assert_eq!(b.apply, Some(setting(3500, 800_000)));
    assert_eq!(b.sleep_ms, Some(5000));
}

#[test]
fn startup_fade_ticks_shortly() {
    let mut s = scheme();
    s.adjustment_alpha = SCALE;
    s.short_trans_delta = -1;
    s.short_trans_len = 10;
    let mut l = ControlLoop::new(s);
    let a = l.step(Event::Tick(40_000_000));
    assert_eq!(a.sleep_ms, Some(SHORT_TICK_MS));
    assert_eq!(a.sleep_ms, Some(100));
    assert_eq!(a.apply, Some(setting(6490, 1_000_000)));
    assert_eq!(l.scheme.adjustment_alpha, 990_000);
    let mut ticks = 1;
    while l.scheme.short_transition() {
        let a = l.step(Event::Tick(40_000_000));
        ticks += 1;
        assert!(!a.restore);
        assert_eq!(a.sleep_ms, Some(if l.scheme.short_transition() { 100 } else { 5000 }));
    }
    assert_eq!(ticks, 100);
    assert_eq!(l.state, LoopState::Running);
    assert_eq!(l.applied, Some(setting(5500, 1_000_000)));
}

#[test]
fn shutdown_fades_and_restores_once() {
    let mut l = ControlLoop::new(scheme());
    l.step(Event::Tick(-30_000_000));
    assert_eq!(l.step(Event::Signal), IDLE);
    assert_eq!(l.state, LoopState::Exiting);
    assert_eq!(l.scheme.adjustment_alpha, EXIT_FADE_ALPHA);
    assert_eq!(l.scheme.adjustment_alpha, 100_000);
    assert_eq!(l.scheme.short_trans_delta, -1);
    assert_eq!(l.scheme.short_trans_len, 2);

    let first = l.step(Event::Tick(-30_000_000));
    assert_eq!(l.scheme.adjustment_alpha, 50_000);
    assert_eq!(l.state, LoopState::Exiting);
    assert_eq!(
        first,
        Action {
            announce: None,
            apply: Some(setting(3650, 810_000)),
            sleep_ms: Some(SHORT_TICK_MS),
            restore: false,
        }
    );

    let second = l.step(Event::Tick(-30_000_000));
    assert_eq!(l.scheme.adjustment_alpha, 0);
    assert_eq!(l.state, LoopState::Terminated);
    assert_eq!(
        second,
        Action { announce: None, apply: Some(setting(3500, 800_000)), sleep_ms: None, restore: true }
    );
    assert!(l.is_terminated());
    assert_eq!(l.exit_code(), 0);

    let mut restores = 1;
    for event in [Event::Tick(0), Event::Signal, Event::Tick(5)] {
        let before = l;
        let a = l.step(event);
        assert_eq!(a, IDLE);
        assert_eq!(l, before);
        if a.restore {
            restores += 1;
        }
    }
    assert_eq!(restores, 1);
}

#[test]
fn late_failure_is_still_recorded() {
    let mut l = ControlLoop::new(scheme());
    l.step(Event::Signal);
    assert_eq!(l.step(Event::Signal), LEAVE);
    assert_eq!(l.exit_code(), 0);
    let before = l;
    assert_eq!(l.step(Event::BackendFailed), IDLE);
    assert!(l.failed);
    assert_eq!(l.exit_code(), 1);
    assert_eq!(l.state, LoopState::Terminated);
    assert_eq!((l.scheme, l.applied, l.period), (before.scheme, before.applied, before.period));
}

#[test]
fn second_signal_forces_exit() {
    let mut l = ControlLoop::new(scheme());
    assert_eq!(l.step(Event::Signal), IDLE);
    assert_eq!(l.step(Event::Signal), LEAVE);
    assert_eq!(l.state, LoopState::Terminated);
    assert_eq!(l.scheme.adjustment_alpha, 100_000);
    assert_eq!(l.exit_code(), 0);
    assert_eq!(l.step(Event::Signal), IDLE);
}

#[test]
fn backend_failure_is_fatal() {
    for prelude in [vec![], vec![Event::Tick(1)], vec![Event::Signal], vec![Event::Signal, Event::Tick(1)]] {
        let mut l = ControlLoop::new(scheme());
        for event in prelude {
            assert!(!l.step(event).restore);
        }
        assert!(!l.is_terminated());
        assert_eq!(l.step(Event::BackendFailed), LEAVE);
        assert!(l.is_terminated());
        assert!(l.failed);
        assert_eq!(l.exit_code(), 1);
        assert_eq!(l.step(Event::BackendFailed), IDLE);
    }
}

#[test]
fn every_way_out_restores_exactly_once() {
    let events = [Event::Signal, Event::Tick(-7_000_000), Event::Tick(2_000_000), Event::BackendFailed];
    let mut codes = vec![0usize; 6];
    loop {
        let mut l = ControlLoop::new(scheme());
        let mut restores = 0;
        for code in &codes {
            if l.step(events[*code]).restore {
                restores += 1;
            }
        }
        assert_eq!(restores, if l.is_terminated() { 1 } else { 0 });
        let mut i = 0;
        while i < codes.len() {
            codes[i] += 1;
            if codes[i] < events.len() {
                break;
            }
            codes[i] = 0;
            i += 1;
        }
        if i == codes.len() {
            break;
        }
    }
}

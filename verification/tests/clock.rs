use redshift_rs::clock::{systemtime_get_time, Timestamp, NSEC_PER_SEC};

#[test]
fn clock_gives_a_moment_of_this_century() {
    let now = systemtime_get_time();
    assert!(now.nsec >= 0 && now.nsec < NSEC_PER_SEC);
    assert!(now.sec > 1_500_000_000);
    assert!(now.sec < 4_102_444_800);
    let later = systemtime_get_time();
    assert!(later.sec + 5 > now.sec);
}

#[test]
fn moments_are_checked() {
    assert_eq!(Timestamp::new(1, 0), Some(Timestamp { sec: 1, nsec: 0 }));
    assert_eq!(Timestamp::new(-2, 999_999_999), Some(Timestamp { sec: -2, nsec: 999_999_999 }));
    assert_eq!(Timestamp::new(1, 1_000_000_000), None);
    assert_eq!(Timestamp::new(1, -1), None);
}

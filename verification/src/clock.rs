//! The wall clock: a moment as seconds and nanoseconds since the epoch.

use vstd::prelude::*;

verus! {

/// Nanoseconds in one second.
pub const NSEC_PER_SEC: i32 = 1_000_000_000;

/// A moment: whole seconds since 1970-01-01T00:00:00Z, and the nanoseconds
/// past that second.
#[derive(Clone, Copy, Debug, PartialEq, Eq, Structural)]
pub struct Timestamp {
    pub sec: i64,
    pub nsec: i32,
}

impl Timestamp {
    /// The moment's invariant: the nanoseconds are less than a second.
    pub open spec fn wf(self) -> bool {
        0 <= self.nsec < NSEC_PER_SEC
    }

    /// The moment of `sec` seconds and `nsec` nanoseconds; none exactly when
    /// the nanoseconds are not less than a second.
    pub fn new(sec: i64, nsec: i32) -> (out: Option<Timestamp>)
        ensures
            out.is_some() == (0 <= nsec < NSEC_PER_SEC),
            out.is_some() ==> out.unwrap() == (Timestamp { sec, nsec }) && out.unwrap().wf(),
    {
        if 0 <= nsec && nsec < NSEC_PER_SEC {
            Some(Timestamp { sec, nsec })
        } else {
            None
        }
    }
}

/// Reads the clock through `time::get_time`.
///
/// Of the moment that comes back only this is claimed: its nanoseconds are
/// less than a second, which `time` checks before it hands a moment out.
#[verifier::external_body]
fn read_clock() -> (out: (i64, i32))
    ensures
        0 <= out.1 < NSEC_PER_SEC,
{
    let now = time::get_time();
    (now.sec, now.nsec)
}

/// The current time. Whatever the clock says, the moment is well formed.
pub fn systemtime_get_time() -> (out: Timestamp)
    ensures
        out.wf(),
{
    let (sec, nsec) = read_clock();
    Timestamp { sec, nsec }
}

} // verus!

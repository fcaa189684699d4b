//! Instants as Unix seconds, and the wall clock that supplies them.

use chrono::Timelike;
use vstd::prelude::*;

verus! {

/// Relies on chrono's `Local::now`, read out through `DateTime::timestamp`
/// (Unix seconds) and `Timelike::hour` (documented as 0 to 23).
#[verifier::external_body]
fn local_now() -> (r: (i64, u32))
    ensures
        r.1 < 24,
{
    let now = chrono::Local::now();
    (now.timestamp(), now.hour())
}

/// One reading of the local wall clock.
pub struct WallClock {
    /// Unix seconds.
    pub timestamp: i64,
    /// Local hour of day.
    pub hour: u32,
}

impl WallClock {
    /// The hour is one of the day's.
    pub open spec fn wf(&self) -> bool {
        self.hour < 24
    }

    /// Reads the clock now. Nothing is known of the instant; the hour is one
    /// of the day's.
    pub fn read() -> (r: WallClock)
        ensures
            r.wf(),
    {
        let (timestamp, hour) = local_now();
        WallClock { timestamp, hour }
    }
}

/// Whole seconds from `now` until `busy_until`; zero once it has passed.
pub open spec fn remaining_secs(busy_until: i64, now: i64) -> nat {
    if busy_until > now {
        (busy_until - now) as nat
    } else {
        0
    }
}

/// Seconds left until `busy_until`, seen at `now`; zero when it has passed.
pub fn time_remaining(busy_until: i64, now: i64) -> (r: u64)
    ensures
        r == remaining_secs(busy_until, now),
{
    if busy_until > now {
        (busy_until as i128 - now as i128) as u64
    } else {
        0
    }
}

} // verus!

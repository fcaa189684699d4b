//! What to do about one "busy until" condition: go on, spend a skip, or wait.

use crate::budget::can_afford_skip;
use crate::clock::{remaining_secs, time_remaining};
use vstd::prelude::*;

verus! {

/// Waits of this many seconds or fewer are never skipped.
pub const SKIP_THRESHOLD_SECS: u64 = 60;

#[derive(PartialEq, Eq, Structural, Clone, Copy, Debug)]
pub enum WaitState {
    /// The condition has passed: the completing command may go out now.
    Ready,
    /// Still busy, and a skip is affordable.
    Skippable,
    /// Still busy and no skip affordable: wait this many seconds, then poll.
    MustWait { seconds: u64 },
}

pub open spec fn wait_state(now: i64, busy_until: i64, skip_stock: u64, threshold: u64) -> WaitState {
    let rem = remaining_secs(busy_until, now);
    if rem == 0 {
        WaitState::Ready
    } else if rem > threshold && skip_stock > 0 {
        WaitState::Skippable
    } else {
        WaitState::MustWait { seconds: rem as u64 }
    }
}

/// Classifies a wait for `busy_until`, seen at `now`, with `skip_stock` skips
/// in hand; a skip is taken only for waits longer than `threshold` seconds.
pub fn wait_or_skip(now: i64, busy_until: i64, skip_stock: u64, threshold: u64) -> (r: WaitState)
    ensures
        r == wait_state(now, busy_until, skip_stock, threshold),
        r is Ready <==> busy_until <= now,
        r matches WaitState::MustWait { seconds } ==> seconds == busy_until - now,
{
    let rem = time_remaining(busy_until, now);
    if rem == 0 {
        WaitState::Ready
    } else if can_afford_skip(skip_stock, rem, threshold) {
        WaitState::Skippable
    } else {
        WaitState::MustWait { seconds: rem }
    }
}

} // verus!

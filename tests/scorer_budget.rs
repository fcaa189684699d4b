use sf_autopilot::budget::{
    can_afford_consumable, can_afford_skip, may_buy_beer, time_of_day_deadline,
    DEFAULT_WORK_SHIFT_HOURS,
};
use sf_autopilot::clock::{time_remaining, WallClock};
use sf_autopilot::scorer::{select_best, select_lowest};
use sf_autopilot::wait::{wait_or_skip, WaitState, SKIP_THRESHOLD_SECS};

#[test]
fn select_best_empty_is_none() {
    assert_eq!(select_best(&vec![]), None);
}

#[test]
fn select_best_picks_greatest() {
    assert_eq!(select_best(&vec![3, 9, 4, 1]), Some(1));
    assert_eq!(select_best(&vec![7]), Some(0));
}

#[test]
fn select_best_duplicate_maximum_takes_earliest() {
    assert_eq!(select_best(&vec![2, 8, 5, 8, 8]), Some(1));
    assert_eq!(select_best(&vec![u64::MAX, u64::MAX]), Some(0));
}

#[test]
fn select_lowest_takes_earliest_minimum() {
    assert_eq!(select_lowest(&vec![]), None);
    assert_eq!(select_lowest(&vec![5, 2, 9, 2]), Some(1));
    assert_eq!(select_lowest(&vec![u64::MAX, 0]), Some(1));
}

#[test]
fn can_afford_skip_examples() {
    assert!(!can_afford_skip(0, 120, 60));
    assert!(can_afford_skip(1, 120, 60));
    assert!(!can_afford_skip(1, 30, 60));
    assert!(!can_afford_skip(1, 60, 60));
}

#[test]
fn can_afford_consumable_examples() {
    assert!(can_afford_consumable(5, 10, 10, 1));
    assert!(!can_afford_consumable(5, 11, 10, 1));
    assert!(!can_afford_consumable(0, 0, 10, 1));
    assert!(can_afford_consumable(1, u64::MAX - 1, u64::MAX, 0));
}

#[test]
fn beer_needs_a_bonus_slot() {
    assert!(!may_buy_beer(50, 0, false, false));
    assert!(may_buy_beer(50, 0, true, false));
    assert!(!may_buy_beer(50, 1, true, false));
    assert!(may_buy_beer(50, 10, true, true));
    assert!(!may_buy_beer(50, 10, false, true));
    assert!(!may_buy_beer(0, 0, true, true));
}

#[test]
fn deadline_clamps_degenerate_windows() {
    assert_eq!(time_of_day_deadline(20, 24), 4);
    assert_eq!(time_of_day_deadline(23, 24), 1);
    assert_eq!(time_of_day_deadline(8, 24), DEFAULT_WORK_SHIFT_HOURS);
    assert_eq!(time_of_day_deadline(14, 24), 10);
    assert_eq!(time_of_day_deadline(24, 24), DEFAULT_WORK_SHIFT_HOURS);
    assert_eq!(time_of_day_deadline(5, 3), DEFAULT_WORK_SHIFT_HOURS);
}

#[test]
fn remaining_time_never_negative() {
    assert_eq!(time_remaining(1_000, 970), 30);
    assert_eq!(time_remaining(1_000, 1_005), 0);
    assert_eq!(time_remaining(1_000, 1_000), 0);
    assert_eq!(time_remaining(i64::MAX, i64::MIN), u64::MAX);
}

#[test]
fn wait_must_wait_exact_duration() {
    let t0: i64 = 1_700_000_000;
    assert_eq!(
        wait_or_skip(t0, t0 + 30, 0, SKIP_THRESHOLD_SECS),
        WaitState::MustWait { seconds: 30 }
    );
}

#[test]
fn wait_ready_once_passed_regardless_of_resources() {
    let t0: i64 = 1_700_000_000;
    assert_eq!(wait_or_skip(t0, t0 - 5, 0, SKIP_THRESHOLD_SECS), WaitState::Ready);
    assert_eq!(wait_or_skip(t0, t0 - 5, 99, SKIP_THRESHOLD_SECS), WaitState::Ready);
}

#[test]
fn wait_skips_only_long_waits() {
    let t0: i64 = 1_700_000_000;
    assert_eq!(wait_or_skip(t0, t0 + 120, 1, 60), WaitState::Skippable);
    assert_eq!(wait_or_skip(t0, t0 + 30, 1, 60), WaitState::MustWait { seconds: 30 });
    assert_eq!(wait_or_skip(t0, t0 + 61, 1, 60), WaitState::Skippable);
}

#[test]
fn wall_clock_reads_the_present() {
    let c = WallClock::read();
    assert!(c.hour < 24);
    // later than 2020-01-01
    assert!(c.timestamp > 1_577_836_800);
}

//! Whether a scarce resource may be spent right now. Pure functions of the
//! numbers they are given.

use vstd::prelude::*;

verus! {

/// Beers that may be drunk a day without any bonus.
pub const BASE_DAILY_BEERS: u64 = 0;

/// Extra beers a live double-bonus event grants.
pub const EVENT_BONUS_BEERS: u64 = 10;

/// Extra beers the thirsty-wanderer enchantment grants.
pub const ENCHANTMENT_BONUS_BEERS: u64 = 1;

/// Work-shift length, in hours, used when the time left today is degenerate.
pub const DEFAULT_WORK_SHIFT_HOURS: u32 = 10;

/// A skip ticket is spent only when one is in stock and the wait left is
/// longer than the threshold.
pub fn can_afford_skip(stock: u64, remaining: u64, threshold: u64) -> (r: bool)
    ensures
        r == (remaining > threshold && stock > 0),
{
    remaining > threshold && stock > 0
}

/// A consumable may be bought while premium currency is at hand and fewer
/// have been consumed today than the daily cap plus the bonus slots.
pub fn can_afford_consumable(
    premium_count: u64,
    consumed_so_far: u64,
    daily_cap: u64,
    bonus_slots: u64,
) -> (r: bool)
    ensures
        r == (premium_count > 0 && consumed_so_far < daily_cap + bonus_slots),
{
    premium_count > 0 && (consumed_so_far as u128) < (daily_cap as u128) + (bonus_slots as u128)
}

/// Bonus beer slots from the enchantment and from a live bonus event.
pub open spec fn beer_bonus_slots(thirsty_wanderer: bool, bonus_event: bool) -> u64 {
    ((if bonus_event { EVENT_BONUS_BEERS } else { 0 }) + (if thirsty_wanderer {
        ENCHANTMENT_BONUS_BEERS
    } else {
        0
    })) as u64
}

/// Whether one more beer may be bought to refill the thirst for adventure.
pub open spec fn beer_affordable(
    mushrooms: u64,
    beer_drunk: u64,
    thirsty_wanderer: bool,
    bonus_event: bool,
) -> bool {
    mushrooms > 0 && beer_drunk < BASE_DAILY_BEERS + beer_bonus_slots(thirsty_wanderer, bonus_event)
}

/// Decides whether a beer may be bought: mushrooms in stock and the day's
/// beers, with the enchantment's and the event's bonus slots, not used up.
pub fn may_buy_beer(mushrooms: u64, beer_drunk: u64, thirsty_wanderer: bool, bonus_event: bool) -> (r:
    bool)
    ensures
        r == beer_affordable(mushrooms, beer_drunk, thirsty_wanderer, bonus_event),
{
    let event_slots: u64 = if bonus_event {
        EVENT_BONUS_BEERS
    } else {
        0
    };
    let enchantment_slots: u64 = if thirsty_wanderer {
        ENCHANTMENT_BONUS_BEERS
    } else {
        0
    };
    can_afford_consumable(mushrooms, beer_drunk, BASE_DAILY_BEERS, event_slots + enchantment_slots)
}

/// The shift length for a given hour of day and cutoff hour: the hours left
/// until the cutoff, or the default when that is zero or longer than the
/// default window.
pub open spec fn shift_hours(now_hour: u32, cutoff_hour: u32) -> u32 {
    if now_hour < cutoff_hour && cutoff_hour - now_hour <= DEFAULT_WORK_SHIFT_HOURS {
        (cutoff_hour - now_hour) as u32
    } else {
        DEFAULT_WORK_SHIFT_HOURS
    }
}

/// Hours of work to ask for now, so that the shift ends by the cutoff hour;
/// the default planning window when the time left is degenerate.
pub fn time_of_day_deadline(now_hour: u32, cutoff_hour: u32) -> (r: u32)
    ensures
        r == shift_hours(now_hour, cutoff_hour),
        1 <= r <= DEFAULT_WORK_SHIFT_HOURS,
{
    if now_hour < cutoff_hour && cutoff_hour - now_hour <= DEFAULT_WORK_SHIFT_HOURS {
        cutoff_hour - now_hour
    } else {
        DEFAULT_WORK_SHIFT_HOURS
    }
}

} // verus!

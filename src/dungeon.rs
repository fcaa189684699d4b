//! Dungeons: the easiest open dungeon, and the decision for one tick.

use crate::command::{Command, DungeonCategory, DungeonId, Halt, Step};
use crate::inventory::{sell_the_worst_item, worst_item};
use crate::scorer::{best_index, inverted, is_first_lowest, select_lowest};
use crate::snapshot::{has_free_slot, has_free_slot_spec, Snapshot};
use crate::wait::{wait_or_skip, wait_state, WaitState};
use vstd::prelude::*;

verus! {

/// Dungeon waits of this many seconds or fewer are never skipped.
pub const DUNGEON_SKIP_THRESHOLD_SECS: u64 = 300;

/// Mushrooms kept back from dungeon skips.
pub const DUNGEON_MUSHROOM_RESERVE: u64 = 1000;

/// A skip is spent only on enemies at most this many levels above the
/// character.
pub const DUNGEON_LEVEL_MARGIN: u64 = 20;

/// Sorting key of a dungeon: its enemy level, closed dungeons last.
pub open spec fn level_key(entry: Option<u16>) -> u64 {
    match entry {
        Some(level) => level as u64,
        None => u64::MAX,
    }
}

pub open spec fn level_keys(progress: Seq<Option<u16>>) -> Seq<u64> {
    progress.map_values(|e: Option<u16>| level_key(e))
}

/// The open dungeon with the lowest enemy level and that level, the earliest
/// among equals; `None` when none is open.
pub open spec fn lowest_open(progress: Seq<Option<u16>>) -> Option<(usize, u16)> {
    let i = best_index(inverted(level_keys(progress)));
    if progress.len() == 0 || progress[i] is None {
        None
    } else {
        Some((i as usize, progress[i]->0))
    }
}

/// Finds the open dungeon of one category with the lowest enemy level, the
/// earliest among equals. `None` when none is open.
pub fn find_lowest_lvl_dungeon(progress: &Vec<Option<u16>>) -> (r: Option<(usize, u16)>)
    ensures
        r == lowest_open(progress@),
        r is None <==> forall|j: int| 0 <= j < progress@.len() ==> progress@[j] is None,
        r matches Some((i, level)) ==> {
            &&& i < progress@.len()
            &&& progress@[i as int] == Some(level)
            &&& forall|j: int|
                0 <= j < progress@.len() && progress@[j] is Some ==> level <= progress@[j]->0
            &&& forall|j: int| 0 <= j < i && progress@[j] is Some ==> level < progress@[j]->0
        },
{
    let mut keys: Vec<u64> = Vec::new();
    let mut i: usize = 0;
    while i < progress.len()
        invariant
            i <= progress@.len(),
            keys@ == level_keys(progress@.take(i as int)),
        decreases progress@.len() - i,
    {
        let key: u64 = match progress[i] {
            Some(level) => level as u64,
            None => u64::MAX,
        };
        keys.push(key);
        proof {
            assert(progress@.take(i + 1) == progress@.take(i as int).push(progress@[i as int]));
        }
        i += 1;
        assert(keys@ =~= level_keys(progress@.take(i as int)));
    }
    assert(progress@.take(i as int) =~= progress@);
    match select_lowest(&keys) {
        None => None,
        Some(b) => {
            assert(is_first_lowest(keys@, b as int));
            match progress[b] {
                None => {
                    proof {
                        assert forall|j: int| 0 <= j < progress@.len() implies progress@[j] is None by {
                            assert(keys@[b as int] <= keys@[j]);
                        }
                    }
                    None
                },
                Some(level) => {
                    proof {
                        assert forall|j: int|
                            0 <= j < progress@.len() && progress@[j] is Some implies level
                            <= progress@[j]->0 by {
                            assert(keys@[b as int] <= keys@[j]);
                        }
                        assert forall|j: int|
                            0 <= j < b && progress@[j] is Some implies level < progress@[j]->0 by {
                            assert(keys@[b as int] < keys@[j]);
                        }
                    }
                    Some((b, level))
                },
            }
        },
    }
}

/// The dungeon to fight in and its enemy level: the lowest level over both
/// categories, light first among equals.
pub open spec fn target_dungeon(s: Snapshot) -> Option<(DungeonId, u16)> {
    let light = lowest_open(s.light_dungeons@);
    let shadow = lowest_open(s.shadow_dungeons@);
    match (light, shadow) {
        (Some((i, x)), Some((j, y))) => if x <= y {
            Some((DungeonId { category: DungeonCategory::Light, index: i }, x))
        } else {
            Some((DungeonId { category: DungeonCategory::Shadow, index: j }, y))
        },
        (Some((i, x)), None) => Some((DungeonId { category: DungeonCategory::Light, index: i }, x)),
        (None, Some((j, y))) => Some(
            (DungeonId { category: DungeonCategory::Shadow, index: j }, y),
        ),
        (None, None) => None,
    }
}

/// Mushrooms that may go into skipping a dungeon wait for an enemy of
/// `enemy_level`: those above the reserve, and none for enemies too far above
/// the character.
pub open spec fn dungeon_skip_stock(s: Snapshot, enemy_level: u16) -> u64 {
    if enemy_level <= s.level + DUNGEON_LEVEL_MARGIN && s.mushrooms > DUNGEON_MUSHROOM_RESERVE {
        (s.mushrooms - DUNGEON_MUSHROOM_RESERVE) as u64
    } else {
        0
    }
}

/// The decision for one tick of the dungeon activity.
pub open spec fn dungeon_step(s: Snapshot) -> Step {
    if s.pending_unlocks > 0 {
        Step::Run(Command::UnlockFeature { pending_pos: 0 })
    } else if s.portal_can_fight {
        Step::Run(Command::FightPortal)
    } else if !has_free_slot_spec(s.backpack@) {
        match worst_item(s.backpack@) {
            Some(i) => Step::RunThenStop(Command::SellShop { inventory_pos: i }, Halt::InventoryFull),
            None => Step::Stop(Halt::NothingToSell),
        }
    } else {
        match target_dungeon(s) {
            None => Step::Stop(Halt::NoDungeons),
            Some((dungeon, level)) => match s.dungeon_next_free_fight {
                None => Step::Stop(Halt::NoDungeonTimer),
                Some(t) => match wait_state(
                    s.now,
                    t,
                    dungeon_skip_stock(s, level),
                    DUNGEON_SKIP_THRESHOLD_SECS,
                ) {
                    WaitState::Ready => Step::Run(
                        Command::FightDungeon { dungeon, use_mushroom: false },
                    ),
                    WaitState::Skippable => Step::Run(
                        Command::FightDungeon { dungeon, use_mushroom: true },
                    ),
                    WaitState::MustWait { .. } => Step::Stop(Halt::DungeonCooldown),
                },
            },
        }
    }
}

/// The dungeon activity, deciding on one snapshot.
pub struct Dungeons {
    pub snapshot: Snapshot,
}

impl Dungeons {
    pub fn new(snapshot: Snapshot) -> (r: Dungeons)
        ensures
            r.snapshot == snapshot,
    {
        Dungeons { snapshot }
    }

    /// One tick: unlock what is pending, fight the portal, make room in a
    /// full backpack, else fight the easiest dungeon when its fight is free
    /// or worth skipping the wait for.
    pub fn do_dungeons(&self) -> (r: Step)
        ensures
            r == dungeon_step(self.snapshot),
    {
        let s = &self.snapshot;
        if s.pending_unlocks > 0 {
            return Step::Run(Command::UnlockFeature { pending_pos: 0 });
        }
        if s.portal_can_fight {
            return Step::Run(Command::FightPortal);
        }
        if !has_free_slot(&s.backpack) {
            return match sell_the_worst_item(&s.backpack) {
                Some(i) => Step::RunThenStop(
                    Command::SellShop { inventory_pos: i },
                    Halt::InventoryFull,
                ),
                None => Step::Stop(Halt::NothingToSell),
            };
        }
        let light = find_lowest_lvl_dungeon(&s.light_dungeons);
        let shadow = find_lowest_lvl_dungeon(&s.shadow_dungeons);
        let (dungeon, level) = match (light, shadow) {
            (Some((i, x)), Some((j, y))) => if x <= y {
                (DungeonId { category: DungeonCategory::Light, index: i }, x)
            } else {
                (DungeonId { category: DungeonCategory::Shadow, index: j }, y)
            },
            (Some((i, x)), None) => (DungeonId { category: DungeonCategory::Light, index: i }, x),
            (None, Some((j, y))) => (DungeonId { category: DungeonCategory::Shadow, index: j }, y),
            (None, None) => {
                return Step::Stop(Halt::NoDungeons);
            },
        };
        let next_fight = match s.dungeon_next_free_fight {
            None => {
                return Step::Stop(Halt::NoDungeonTimer);
            },
            Some(t) => t,
        };
        let stock: u64 = if level as u64 <= s.level as u64 + DUNGEON_LEVEL_MARGIN && s.mushrooms as u64
            > DUNGEON_MUSHROOM_RESERVE {
            s.mushrooms as u64 - DUNGEON_MUSHROOM_RESERVE
        } else {
            0
        };
        match wait_or_skip(s.now, next_fight, stock, DUNGEON_SKIP_THRESHOLD_SECS) {
            WaitState::Ready => Step::Run(Command::FightDungeon { dungeon, use_mushroom: false }),
            WaitState::Skippable => Step::Run(Command::FightDungeon { dungeon, use_mushroom: true }),
            WaitState::MustWait { .. } => Step::Stop(Halt::DungeonCooldown),
        }
    }
}

} // verus!

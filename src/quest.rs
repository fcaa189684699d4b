//! Quests: the best quest on offer, the gates before it, and the wait for it.

use crate::clock::{remaining_secs, time_remaining};
use crate::command::{Command, ExpeditionSetting, Halt, Step, TimeSkip};
use crate::expedition::{check_thirst, thirst_gate, work_hours, work_hours_at, WORKDAY_CUTOFF_HOUR};
use crate::inventory::{sell_the_worst_item, worst_item};
use crate::scorer::{best_index, best_of, is_first_best, select_best};
use crate::snapshot::{has_free_slot, has_free_slot_spec, Activity, AvailableTasks, QuestOffer, Snapshot};
use crate::wait::{wait_or_skip, wait_state, WaitState, SKIP_THRESHOLD_SECS};
use vstd::prelude::*;

verus! {

/// Mushrooms kept back from quest skips.
pub const QUEST_MUSHROOM_RESERVE: u64 = 100;

pub const SECS_PER_HOUR: u64 = 3600;

pub open spec fn quest_scores(quests: Seq<QuestOffer>) -> Seq<u64> {
    quests.map_values(|q: QuestOffer| q.base_experience as u64)
}

/// Picks the quest with the most experience, the earliest among equals.
/// `None` when none is offered.
pub fn best_quest(quests: &Vec<QuestOffer>) -> (r: Option<usize>)
    ensures
        r is None <==> quests@.len() == 0,
        r matches Some(i) ==> is_first_best(quest_scores(quests@), i as int),
        r == best_of(quest_scores(quests@)),
{
    let mut scores: Vec<u64> = Vec::new();
    let mut i: usize = 0;
    while i < quests.len()
        invariant
            i <= quests@.len(),
            scores@ == quest_scores(quests@.take(i as int)),
        decreases quests@.len() - i,
    {
        scores.push(quests[i].base_experience as u64);
        proof {
            assert(quests@.take(i + 1) == quests@.take(i as int).push(quests@[i as int]));
        }
        i += 1;
        assert(scores@ =~= quest_scores(quests@.take(i as int)));
    }
    assert(quests@.take(i as int) =~= quests@);
    select_best(&scores)
}

/// Seconds left today before the workday cutoff, at the given hour.
pub open spec fn day_budget_secs(hour: u32) -> u64 {
    if hour < WORKDAY_CUTOFF_HOUR {
        ((WORKDAY_CUTOFF_HOUR - hour) * SECS_PER_HOUR) as u64
    } else {
        0
    }
}

/// Mushrooms that may go into skipping a quest wait: those above the
/// reserve, where the game allows mushroom skips at all.
pub open spec fn quest_mushroom_stock(s: Snapshot) -> u64 {
    if s.mushroom_skip_allowed && s.mushrooms > QUEST_MUSHROOM_RESERVE {
        (s.mushrooms - QUEST_MUSHROOM_RESERVE) as u64
    } else {
        0
    }
}

/// The decision while a quest runs: finish it once over, else skip with a
/// glass, else with mushrooms, else wait it out.
pub open spec fn quest_wait_step(s: Snapshot, busy_until: i64) -> Step {
    match wait_state(s.now, busy_until, s.quicksand_glasses as u64, SKIP_THRESHOLD_SECS) {
        WaitState::Ready => Step::Run(Command::FinishQuest { skip: None }),
        WaitState::Skippable => Step::Run(Command::FinishQuest { skip: Some(TimeSkip::Glass) }),
        WaitState::MustWait { seconds } => match wait_state(
            s.now,
            busy_until,
            quest_mushroom_stock(s),
            SKIP_THRESHOLD_SECS,
        ) {
            WaitState::Skippable => Step::Run(
                Command::FinishQuest { skip: Some(TimeSkip::Mushroom) },
            ),
            _ => Step::Sleep { seconds },
        },
    }
}

/// Starting quest `pos`, after making room for its item reward.
pub open spec fn start_quest_step(s: Snapshot, pos: usize) -> Step {
    if s.quests[pos as int].has_item && !has_free_slot_spec(s.backpack@) {
        match worst_item(s.backpack@) {
            Some(i) => Step::Run(Command::SellShop { inventory_pos: i }),
            None => Step::Stop(Halt::NothingToSell),
        }
    } else {
        Step::Run(Command::StartQuest { quest_pos: pos, overwrite_inv: true })
    }
}

/// The decision when the character is idle.
pub open spec fn idle_quest_step(s: Snapshot) -> Step {
    match s.tasks {
        AvailableTasks::Quests => {
            if s.quests.len() == 0 {
                Step::Stop(Halt::NoQuests)
            } else {
                let pos = best_index(quest_scores(s.quests@)) as usize;
                let q = s.quests[pos as int];
                if q.base_length > day_budget_secs(s.hour) {
                    Step::RunThenStop(
                        Command::StartWork { hours: work_hours(s.hour) },
                        Halt::WorkStarted,
                    )
                } else {
                    thirst_gate(s, q.base_length, start_quest_step(s, pos))
                }
            }
        },
        AvailableTasks::Expeditions => {
            if !s.can_change_questing_preference {
                Step::Stop(Halt::SettingLocked)
            } else {
                Step::Run(
                    Command::SetQuestsInsteadOfExpeditions { value: ExpeditionSetting::PreferQuests },
                )
            }
        },
    }
}

/// The decision for one tick of the quest activity.
pub open spec fn quest_step(s: Snapshot) -> Step {
    match s.activity {
        Activity::Idle => idle_quest_step(s),
        Activity::Quest { busy_until } => quest_wait_step(s, busy_until),
        Activity::CityGuard { busy_until } => if remaining_secs(busy_until, s.now) == 0 {
            Step::Run(Command::FinishWork)
        } else {
            Step::Stop(Halt::CityGuardBusy)
        },
        _ => Step::Stop(Halt::NotIdle),
    }
}

/// The quest activity, deciding on one snapshot.
pub struct Questing {
    pub snapshot: Snapshot,
}

impl Questing {
    pub fn new(snapshot: Snapshot) -> (r: Questing)
        ensures
            r.snapshot == snapshot,
    {
        Questing { snapshot }
    }

    fn wait_for_quest(&self, busy_until: i64) -> (r: Step)
        ensures
            r == quest_wait_step(self.snapshot, busy_until),
    {
        let s = &self.snapshot;
        match wait_or_skip(s.now, busy_until, s.quicksand_glasses as u64, SKIP_THRESHOLD_SECS) {
            WaitState::Ready => Step::Run(Command::FinishQuest { skip: None }),
            WaitState::Skippable => Step::Run(Command::FinishQuest { skip: Some(TimeSkip::Glass) }),
            WaitState::MustWait { seconds } => {
                let stock: u64 = if s.mushroom_skip_allowed && s.mushrooms as u64
                    > QUEST_MUSHROOM_RESERVE {
                    s.mushrooms as u64 - QUEST_MUSHROOM_RESERVE
                } else {
                    0
                };
                match wait_or_skip(s.now, busy_until, stock, SKIP_THRESHOLD_SECS) {
                    WaitState::Skippable => Step::Run(
                        Command::FinishQuest { skip: Some(TimeSkip::Mushroom) },
                    ),
                    _ => Step::Sleep { seconds },
                }
            },
        }
    }

    fn start_quest(&self, pos: usize) -> (r: Step)
        requires
            pos < self.snapshot.quests@.len(),
        ensures
            r == start_quest_step(self.snapshot, pos),
    {
        let s = &self.snapshot;
        if s.quests[pos].has_item && !has_free_slot(&s.backpack) {
            match sell_the_worst_item(&s.backpack) {
                Some(i) => Step::Run(Command::SellShop { inventory_pos: i }),
                None => Step::Stop(Halt::NothingToSell),
            }
        } else {
            Step::Run(Command::StartQuest { quest_pos: pos, overwrite_inv: true })
        }
    }

    /// One tick: when idle, take the quest with the most experience (after
    /// the time, thirst and backpack checks); while questing, finish, skip or
    /// wait; after a city guard shift, collect it.
    pub fn questing(&self) -> (r: Step)
        ensures
            r == quest_step(self.snapshot),
    {
        let s = &self.snapshot;
        match s.activity {
            Activity::Idle => match s.tasks {
                AvailableTasks::Quests => match best_quest(&s.quests) {
                    None => Step::Stop(Halt::NoQuests),
                    Some(pos) => {
                        let length = s.quests[pos].base_length;
                        let budget: u64 = if s.hour < WORKDAY_CUTOFF_HOUR {
                            (WORKDAY_CUTOFF_HOUR - s.hour) as u64 * SECS_PER_HOUR
                        } else {
                            0
                        };
                        if length as u64 > budget {
                            Step::RunThenStop(
                                Command::StartWork { hours: work_hours_at(s.hour) },
                                Halt::WorkStarted,
                            )
                        } else {
                            check_thirst(s, length, self.start_quest(pos))
                        }
                    },
                },
                AvailableTasks::Expeditions => {
                    if !s.can_change_questing_preference {
                        Step::Stop(Halt::SettingLocked)
                    } else {
                        Step::Run(
                            Command::SetQuestsInsteadOfExpeditions {
                                value: ExpeditionSetting::PreferQuests,
                            },
                        )
                    }
                },
            },
            Activity::Quest { busy_until } => self.wait_for_quest(busy_until),
            Activity::CityGuard { busy_until } => {
                if time_remaining(busy_until, s.now) == 0 {
                    Step::Run(Command::FinishWork)
                } else {
                    Step::Stop(Halt::CityGuardBusy)
                }
            },
            _ => Step::Stop(Halt::NotIdle),
        }
    }
}

} // verus!

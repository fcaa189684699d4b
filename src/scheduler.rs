//! The order of the activities in a pass, and what follows each step.

use crate::arena::arena_step;
use crate::command::Step;
use crate::dungeon::dungeon_step;
use crate::equipment::equip_plan;
use crate::expedition::expedition_step;
use crate::quest::quest_step;
use crate::snapshot::Snapshot;
use vstd::prelude::*;

verus! {

/// Seconds to sleep between two full passes.
pub const PASS_INTERVAL_SECS: u64 = 60;

/// Ticks after which one activity's pass is given up.
pub const MAX_TICKS_PER_PASS: u64 = 100;

/// The activities of a pass, in the order they run.
#[derive(PartialEq, Eq, Structural, Clone, Copy, Debug)]
pub enum Engine {
    Equipment,
    Expedition,
    Dungeon,
    Arena,
}

pub open spec fn following(engine: Engine) -> Option<Engine> {
    match engine {
        Engine::Equipment => Some(Engine::Expedition),
        Engine::Expedition => Some(Engine::Dungeon),
        Engine::Dungeon => Some(Engine::Arena),
        Engine::Arena => None,
    }
}

/// The activity after `engine` in a pass; `None` after the last.
pub fn next_engine(engine: Engine) -> (r: Option<Engine>)
    ensures
        r == following(engine),
{
    match engine {
        Engine::Equipment => Some(Engine::Expedition),
        Engine::Expedition => Some(Engine::Dungeon),
        Engine::Dungeon => Some(Engine::Arena),
        Engine::Arena => None,
    }
}

/// What the scheduler does once a step's command, if any, has gone out.
#[derive(PartialEq, Eq, Structural, Clone, Copy, Debug)]
pub enum Flow {
    /// Poll again and take the next step of the same activity.
    PollAgain,
    /// Sleep this many seconds, then poll again.
    SleepThenPoll { seconds: u64 },
    /// Go on to the next activity.
    EndPass,
}

pub open spec fn flow_of(step: Step) -> Flow {
    match step {
        Step::Run(_) => Flow::PollAgain,
        Step::RunThenStop(_, _) => Flow::EndPass,
        Step::Sleep { seconds } => Flow::SleepThenPoll { seconds },
        Step::Repoll => Flow::PollAgain,
        Step::Stop(_) => Flow::EndPass,
    }
}

/// The flow after `step`.
pub fn flow_after(step: &Step) -> (r: Flow)
    ensures
        r == flow_of(*step),
{
    match step {
        Step::Run(_) => Flow::PollAgain,
        Step::RunThenStop(_, _) => Flow::EndPass,
        Step::Sleep { seconds } => Flow::SleepThenPoll { seconds: *seconds },
        Step::Repoll => Flow::PollAgain,
        Step::Stop(_) => Flow::EndPass,
    }
}

/// Every decision is a function of the snapshot alone: two decision passes
/// over the same snapshot yield the same commands, for every activity.
pub proof fn lemma_decisions_repeatable(first: Snapshot, second: Snapshot)
    requires
        first == second,
    ensures
        equip_plan(first) == equip_plan(second),
        expedition_step(first) == expedition_step(second),
        dungeon_step(first) == dungeon_step(second),
        arena_step(first) == arena_step(second),
        quest_step(first) == quest_step(second),
{
}

} // verus!

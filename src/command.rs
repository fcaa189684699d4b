//! What the decision core hands to the game session: one command, or the
//! reason to wait, poll again or stop.

use vstd::prelude::*;

verus! {

/// The resource that cuts a timer short.
#[derive(PartialEq, Eq, Structural, Clone, Copy, Debug)]
pub enum TimeSkip {
    Glass,
    Mushroom,
}

/// Whether the tavern offers quests or expeditions.
#[derive(PartialEq, Eq, Structural, Clone, Copy, Debug)]
pub enum ExpeditionSetting {
    PreferQuests,
    PreferExpeditions,
}

/// The two dungeon categories, light first.
#[derive(PartialEq, Eq, Structural, Clone, Copy, Debug)]
pub enum DungeonCategory {
    Light,
    Shadow,
}

/// A dungeon, by category and by its place in that category's list.
#[derive(PartialEq, Eq, Structural, Clone, Copy, Debug)]
pub struct DungeonId {
    pub category: DungeonCategory,
    pub index: usize,
}

/// An instruction for the game session. Positions index the lists of the
/// snapshot the command was decided on.
#[derive(PartialEq, Eq, Structural, Clone, Copy, Debug)]
pub enum Command {
    Update,
    BuyBeer,
    StartWork { hours: u8 },
    FinishWork,
    StartQuest { quest_pos: usize, overwrite_inv: bool },
    FinishQuest { skip: Option<TimeSkip> },
    SetQuestsInsteadOfExpeditions { value: ExpeditionSetting },
    ExpeditionStart { pos: usize },
    ExpeditionContinue,
    ExpeditionPickReward { pos: usize },
    ExpeditionPickEncounter { pos: usize },
    ExpeditionSkipWait { typ: TimeSkip },
    /// Unlock the pending unlockable at this position.
    UnlockFeature { pending_pos: usize },
    FightPortal,
    FightDungeon { dungeon: DungeonId, use_mushroom: bool },
    /// Sell the backpack item at this position.
    SellShop { inventory_pos: usize },
    /// Move a backpack item into an equipment slot.
    InventoryMove { inventory_from_pos: usize, inventory_to_pos: usize },
    /// Fight the arena opponent at this position.
    Fight { opponent: usize, use_mushroom: bool },
}

/// Why a pass over one activity ends.
#[derive(PartialEq, Eq, Structural, Clone, Copy, Debug)]
pub enum Halt {
    /// The character is busy with something this activity does not handle.
    NotIdle,
    /// No expedition event is running.
    ExpeditionsDisabled,
    /// The tavern setting cannot be changed again today.
    SettingLocked,
    /// The tavern offers no expedition.
    NoExpeditions,
    /// The tavern offers no quest.
    NoQuests,
    /// The city guard shift is still running.
    CityGuardBusy,
    /// Work was started for lack of thirst or of time.
    WorkStarted,
    /// No dungeon is open.
    NoDungeons,
    /// The dungeon timer is unknown.
    NoDungeonTimer,
    /// The next dungeon fight is neither free nor worth a skip.
    DungeonCooldown,
    /// The backpack is full and an item was sold.
    InventoryFull,
    /// The backpack is full and holds nothing to sell.
    NothingToSell,
    /// The next arena fight is not free yet.
    ArenaCooldown,
    /// No arena opponent could be looked at.
    NoOpponent,
    /// The pass's arena fight was fought.
    ArenaFought,
}

/// The outcome of one tick of an activity.
#[derive(PartialEq, Eq, Structural, Clone, Copy, Debug)]
pub enum Step {
    /// Send the command, then poll again.
    Run(Command),
    /// Send the command, then end this activity's pass.
    RunThenStop(Command, Halt),
    /// Sleep this many seconds, then poll again.
    Sleep { seconds: u64 },
    /// Nothing to do this tick; poll again.
    Repoll,
    /// End this activity's pass.
    Stop(Halt),
}

} // verus!

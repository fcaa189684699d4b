//! The read-only view of one account that every decision is made on.
//! Instants are Unix seconds.

use crate::command::ExpeditionSetting;
use crate::expedition::{ExpeditionStage, ExpeditionThing};
use vstd::prelude::*;

verus! {

/// The five character attributes.
#[derive(PartialEq, Eq, Structural, Clone, Copy, Debug)]
pub struct Attributes {
    pub strength: u32,
    pub dexterity: u32,
    pub intelligence: u32,
    pub constitution: u32,
    pub luck: u32,
}

/// The places where an item can be equipped.
#[derive(PartialEq, Eq, Structural, Clone, Copy, Debug)]
pub enum EquipmentSlot {
    Hat,
    BreastPlate,
    Gloves,
    FootWear,
    Amulet,
    Belt,
    Ring,
    Talisman,
    Weapon,
    Shield,
}

/// An item, with what the selectors read of it.
#[derive(PartialEq, Eq, Structural, Clone, Copy, Debug)]
pub struct Item {
    /// Where it can be equipped; `None` for anything that is not equipment.
    pub slot: Option<EquipmentSlot>,
    /// Its selling price.
    pub price: u32,
    pub attributes: Attributes,
    /// Armor value; zero for weapons, shields and non-equipment.
    pub armor: u32,
    /// Damage range; zero for anything but weapons.
    pub min_dmg: u32,
    pub max_dmg: u32,
}

/// One equipment slot and what is in it.
#[derive(PartialEq, Eq, Structural, Clone, Copy, Debug)]
pub struct EquippedSlot {
    pub slot: EquipmentSlot,
    pub item: Option<Item>,
}

/// What the character is busy with.
#[derive(PartialEq, Eq, Structural, Clone, Copy, Debug)]
pub enum Activity {
    Idle,
    Quest { busy_until: i64 },
    CityGuard { busy_until: i64 },
    Expedition,
    Unknown,
}

/// Which kind of task the tavern offers now.
#[derive(PartialEq, Eq, Structural, Clone, Copy, Debug)]
pub enum AvailableTasks {
    Quests,
    Expeditions,
}

/// A quest on offer.
#[derive(PartialEq, Eq, Structural, Clone, Copy, Debug)]
pub struct QuestOffer {
    pub base_experience: u32,
    /// Length in seconds of thirst for adventure.
    pub base_length: u32,
    /// Whether the quest rewards an item.
    pub has_item: bool,
}

/// An expedition on offer.
#[derive(PartialEq, Eq, Structural, Clone, Copy, Debug)]
pub struct ExpeditionOffer {
    pub target: ExpeditionThing,
    pub thirst_for_adventure_sec: u32,
}

/// The running expedition: what it is after and where it stands.
#[derive(Clone, Debug)]
pub struct ActiveExpedition {
    pub target_thing: ExpeditionThing,
    pub stage: ExpeditionStage,
}

/// An arena opponent, as looked up.
#[derive(PartialEq, Eq, Structural, Clone, Copy, Debug)]
pub struct Opponent {
    pub base_attributes: Attributes,
    pub bonus_attributes: Attributes,
    pub min_damage_base: u32,
    pub max_damage_base: u32,
}

/// The account as seen at one poll.
#[derive(Clone, Debug)]
pub struct Snapshot {
    /// The instant of the poll.
    pub now: i64,
    /// The local hour of day at the poll.
    pub hour: u32,
    pub level: u16,
    pub mushrooms: u32,
    pub activity: Activity,
    /// Idle in the tavern: no action and no expedition running.
    pub tavern_idle: bool,
    pub tasks: AvailableTasks,
    pub quests: Vec<QuestOffer>,
    pub expedition_offers: Vec<ExpeditionOffer>,
    pub expedition_event_ongoing: bool,
    pub questing_preference: ExpeditionSetting,
    pub can_change_questing_preference: bool,
    pub active_expedition: Option<ActiveExpedition>,
    pub thirst_for_adventure_sec: u32,
    pub beer_drunk: u8,
    /// An equipped item carries the thirsty-wanderer enchantment.
    pub thirsty_wanderer: bool,
    /// An event that grants bonus beers is live.
    pub beer_event: bool,
    pub quicksand_glasses: u32,
    pub mushroom_skip_allowed: bool,
    /// Backpack slots, in order; `None` is free.
    pub backpack: Vec<Option<Item>>,
    pub equipment: Vec<EquippedSlot>,
    /// Unlockables waiting to be unlocked.
    pub pending_unlocks: usize,
    pub portal_can_fight: bool,
    /// Current enemy level of each light dungeon; `None` unless it is open.
    pub light_dungeons: Vec<Option<u16>>,
    /// Current enemy level of each shadow dungeon; `None` unless it is open.
    pub shadow_dungeons: Vec<Option<u16>>,
    pub dungeon_next_free_fight: Option<i64>,
    pub arena_next_free_fight: Option<i64>,
    /// The arena opponents that could be looked up.
    pub opponents: Vec<Opponent>,
}

pub open spec fn has_free_slot_spec(backpack: Seq<Option<Item>>) -> bool {
    exists|i: int| 0 <= i < backpack.len() && backpack[i] is None
}

/// Whether the backpack has a free slot.
pub fn has_free_slot(backpack: &Vec<Option<Item>>) -> (r: bool)
    ensures
        r == has_free_slot_spec(backpack@),
{
    let mut i: usize = 0;
    while i < backpack.len()
        invariant
            i <= backpack@.len(),
            forall|j: int| 0 <= j < i ==> backpack@[j] is Some,
        decreases backpack@.len() - i,
    {
        if backpack[i].is_none() {
            return true;
        }
        i += 1;
    }
    false
}

} // verus!

//! Equipment: item scores and the choice of replacements for each slot.

use crate::command::Command;
use crate::scorer::{best_index, select_best};
use crate::snapshot::{Attributes, EquipmentSlot, EquippedSlot, Item, Snapshot};
use vstd::prelude::*;

verus! {

pub const STRENGTH_WEIGHT: u64 = 1;

pub const CONSTITUTION_WEIGHT: u64 = 4;

pub const LUCK_WEIGHT: u64 = 2;

pub const INTELLIGENCE_WEIGHT: u64 = 1;

pub const DEXTERITY_WEIGHT: u64 = 5;

/// Weight of the armor value, and of a weapon's average damage.
pub const ARMOR_WEAPON_WEIGHT: u64 = 6;

/// The weighted sum of the five attributes.
pub open spec fn attribute_score(a: Attributes) -> int {
    STRENGTH_WEIGHT * a.strength + CONSTITUTION_WEIGHT * a.constitution + LUCK_WEIGHT * a.luck
        + INTELLIGENCE_WEIGHT * a.intelligence + DEXTERITY_WEIGHT * a.dexterity
}

pub open spec fn is_weapon(item: Item) -> bool {
    item.slot == Some(EquipmentSlot::Weapon)
}

/// The attribute score, plus the weighted armor value, plus for a weapon the
/// weighted average damage.
pub open spec fn item_score(item: Item) -> int {
    attribute_score(item.attributes) + ARMOR_WEAPON_WEIGHT * item.armor + if is_weapon(item) {
        (ARMOR_WEAPON_WEIGHT * (item.min_dmg + item.max_dmg)) / 2
    } else {
        0
    }
}

/// The weighted sum of the five attributes.
pub fn calculate_attribute_score(attributes: &Attributes) -> (r: u64)
    ensures
        r == attribute_score(*attributes),
{
    STRENGTH_WEIGHT * attributes.strength as u64 + CONSTITUTION_WEIGHT
        * attributes.constitution as u64 + LUCK_WEIGHT * attributes.luck as u64
        + INTELLIGENCE_WEIGHT * attributes.intelligence as u64 + DEXTERITY_WEIGHT
        * attributes.dexterity as u64
}

/// The score of an item.
pub fn item_score_of(item: &Item) -> (r: u64)
    ensures
        r == item_score(*item),
        r < 0x100_0000_0000,
{
    let base = calculate_attribute_score(&item.attributes) + ARMOR_WEAPON_WEIGHT
        * item.armor as u64;
    if item.slot == Some(EquipmentSlot::Weapon) {
        base + ARMOR_WEAPON_WEIGHT * (item.min_dmg as u64 + item.max_dmg as u64) / 2
    } else {
        base
    }
}

pub open spec fn incumbent_score(current: Option<Item>) -> int {
    match current {
        Some(item) => item_score(item),
        None => 0,
    }
}

/// Whether `new_item` scores strictly higher than the current one (an empty
/// place scores zero).
pub fn is_better_item(new_item: &Item, current_item: &Option<Item>) -> (r: bool)
    ensures
        r == (item_score(*new_item) > incumbent_score(*current_item)),
{
    let current_score: u64 = match current_item {
        Some(item) => item_score_of(item),
        None => 0,
    };
    item_score_of(new_item) > current_score
}

/// How a backpack entry scores as a candidate for `slot`: its item score plus
/// one when it fits the slot, zero otherwise.
pub open spec fn candidate_key(slot: EquipmentSlot, entry: Option<Item>) -> u64 {
    match entry {
        Some(item) => if item.slot == Some(slot) {
            (item_score(item) + 1) as u64
        } else {
            0
        },
        None => 0,
    }
}

pub open spec fn candidate_keys(slot: EquipmentSlot, backpack: Seq<Option<Item>>) -> Seq<u64> {
    backpack.map_values(|e: Option<Item>| candidate_key(slot, e))
}

/// The move, if any, into equipment slot `k`: the best fitting backpack item
/// (earliest among equals) goes into an empty slot, and replaces the
/// equipped item only when it scores strictly higher.
pub open spec fn slot_move(equipment: Seq<EquippedSlot>, backpack: Seq<Option<Item>>, k: int) -> Option<
    Command,
> {
    let e = equipment[k];
    let keys = candidate_keys(e.slot, backpack);
    let b = best_index(keys);
    if keys.len() == 0 || keys[b] == 0 {
        None
    } else {
        let mv = Command::InventoryMove { inventory_from_pos: b as usize, inventory_to_pos: k as usize };
        match e.item {
            None => Some(mv),
            Some(current) => if keys[b] - 1 > item_score(current) {
                Some(mv)
            } else {
                None
            },
        }
    }
}

/// The moves for the first `k` slots, in slot order.
pub open spec fn plan_upto(equipment: Seq<EquippedSlot>, backpack: Seq<Option<Item>>, k: int) -> Seq<
    Command,
>
    decreases k,
{
    if k <= 0 {
        seq![]
    } else {
        let p = plan_upto(equipment, backpack, k - 1);
        match slot_move(equipment, backpack, k - 1) {
            Some(c) => p.push(c),
            None => p,
        }
    }
}

pub open spec fn equip_plan(s: Snapshot) -> Seq<Command> {
    plan_upto(s.equipment@, s.backpack@, s.equipment@.len() as int)
}

/// The move into equipment slot `k`, if any.
pub fn replacement_for(equipment: &Vec<EquippedSlot>, backpack: &Vec<Option<Item>>, k: usize) -> (r:
    Option<Command>)
    requires
        k < equipment@.len(),
    ensures
        r == slot_move(equipment@, backpack@, k as int),
{
    let e = equipment[k];
    let mut keys: Vec<u64> = Vec::new();
    let mut i: usize = 0;
    while i < backpack.len()
        invariant
            i <= backpack@.len(),
            keys@ == candidate_keys(e.slot, backpack@.take(i as int)),
        decreases backpack@.len() - i,
    {
        let key: u64 = match backpack[i] {
            Some(item) => if item.slot == Some(e.slot) {
                item_score_of(&item) + 1
            } else {
                0
            },
            None => 0,
        };
        keys.push(key);
        proof {
            assert(backpack@.take(i + 1) == backpack@.take(i as int).push(backpack@[i as int]));
        }
        i += 1;
        assert(keys@ =~= candidate_keys(e.slot, backpack@.take(i as int)));
    }
    assert(backpack@.take(i as int) =~= backpack@);
    match select_best(&keys) {
        None => None,
        Some(b) => {
            if keys[b] == 0 {
                None
            } else {
                let mv = Command::InventoryMove { inventory_from_pos: b, inventory_to_pos: k };
                match e.item {
                    None => Some(mv),
                    Some(current) => if keys[b] - 1 > item_score_of(&current) {
                        Some(mv)
                    } else {
                        None
                    },
                }
            }
        },
    }
}

/// A fitting item scores below the bound that keeps its candidate key exact.
pub proof fn lemma_item_score_bound(item: Item)
    ensures
        0 <= item_score(item) < 0x100_0000_0000,
{
}

/// An empty slot for which the backpack holds a fitting item is always
/// filled, with a fitting item.
pub proof fn lemma_empty_slot_filled(
    equipment: Seq<EquippedSlot>,
    backpack: Seq<Option<Item>>,
    k: int,
    j: int,
)
    requires
        0 <= k < equipment.len() <= usize::MAX,
        backpack.len() <= usize::MAX,
        equipment[k].item is None,
        0 <= j < backpack.len(),
        backpack[j] matches Some(item) && item.slot == Some(equipment[k].slot),
    ensures
        slot_move(equipment, backpack, k) matches Some(Command::InventoryMove { inventory_from_pos, inventory_to_pos }) && {
            &&& inventory_to_pos == k
            &&& inventory_from_pos < backpack.len()
            &&& backpack[inventory_from_pos as int] matches Some(chosen) && chosen.slot == Some(equipment[k].slot)
        },
{
    let keys = candidate_keys(equipment[k].slot, backpack);
    lemma_item_score_bound(backpack[j]->0);
    crate::scorer::lemma_best_index(keys);
    let b = best_index(keys);
    assert(keys[j] == candidate_key(equipment[k].slot, backpack[j]));
    assert(keys[b] == candidate_key(equipment[k].slot, backpack[b]));
    assert(keys[j] >= 1);
    assert(keys[b] >= keys[j]);
    if backpack[b] is Some {
        lemma_item_score_bound(backpack[b]->0);
    }
}

/// An occupied slot is replaced exactly when the backpack holds a fitting
/// item that scores strictly higher than the equipped one; the item moved in
/// is such an item. Equal scores never cause a swap.
pub proof fn lemma_replaced_only_if_better(
    equipment: Seq<EquippedSlot>,
    backpack: Seq<Option<Item>>,
    k: int,
)
    requires
        0 <= k < equipment.len() <= usize::MAX,
        backpack.len() <= usize::MAX,
        equipment[k].item is Some,
    ensures
        ({
            let current = equipment[k].item->0;
            let slot = equipment[k].slot;
            &&& slot_move(equipment, backpack, k) is Some <==> exists|j: int|
                0 <= j < backpack.len() && (#[trigger] backpack[j] matches Some(item) && item.slot
                    == Some(slot) && item_score(item) > item_score(current))
            &&& slot_move(equipment, backpack, k) matches Some(
                Command::InventoryMove { inventory_from_pos, inventory_to_pos },
            ) ==> {
                &&& inventory_to_pos == k
                &&& inventory_from_pos < backpack.len()
                &&& backpack[inventory_from_pos as int] matches Some(chosen) && chosen.slot
                    == Some(slot) && item_score(chosen) > item_score(current)
            }
        }),
{
    let current = equipment[k].item->0;
    let slot = equipment[k].slot;
    let keys = candidate_keys(slot, backpack);
    if backpack.len() > 0 {
        crate::scorer::lemma_best_index(keys);
        let b = best_index(keys);
        assert(keys[b] == candidate_key(slot, backpack[b]));
        if backpack[b] is Some {
            lemma_item_score_bound(backpack[b]->0);
        }
        if exists|j: int|
            0 <= j < backpack.len() && (#[trigger] backpack[j] matches Some(item) && item.slot
                == Some(slot) && item_score(item) > item_score(current)) {
            let j = choose|j: int|
                0 <= j < backpack.len() && (#[trigger] backpack[j] matches Some(item) && item.slot
                    == Some(slot) && item_score(item) > item_score(current));
            lemma_item_score_bound(backpack[j]->0);
            assert(keys[j] == candidate_key(slot, backpack[j]));
            assert(keys[b] >= keys[j]);
        }
    }
}

/// The equipment activity, deciding on one snapshot.
pub struct Equip {
    pub snapshot: Snapshot,
}

impl Equip {
    pub fn new(snapshot: Snapshot) -> (r: Equip)
        ensures
            r.snapshot == snapshot,
    {
        Equip { snapshot }
    }

    /// The backpack-to-equipment moves for every slot, in slot order: for
    /// each slot, the move that `slot_move` names, if any.
    pub fn equip(&self) -> (r: Vec<Command>)
        ensures
            r@ == equip_plan(self.snapshot),
    {
        let equipment = &self.snapshot.equipment;
        let mut plan: Vec<Command> = Vec::new();
        let mut k: usize = 0;
        while k < equipment.len()
            invariant
                k <= equipment@.len(),
                equipment == &self.snapshot.equipment,
                plan@ == plan_upto(equipment@, self.snapshot.backpack@, k as int),
            decreases equipment@.len() - k,
        {
            match replacement_for(equipment, &self.snapshot.backpack, k) {
                Some(c) => plan.push(c),
                None => {},
            }
            k += 1;
        }
        plan
    }
}

} // verus!

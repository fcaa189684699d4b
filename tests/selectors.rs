use sf_autopilot::arena::find_weakest_player;
use sf_autopilot::command::Command;
use sf_autopilot::dungeon::find_lowest_lvl_dungeon;
use sf_autopilot::equipment::{calculate_attribute_score, is_better_item, item_score_of, Equip};
use sf_autopilot::expedition::{encounter_table, pick_encounter, pick_reward, ExpeditionThing, Road, RewardKind};
use sf_autopilot::inventory::sell_the_worst_item;
use sf_autopilot::quest::best_quest;
use sf_autopilot::snapshot::{
    Activity, Attributes, AvailableTasks, EquipmentSlot, EquippedSlot, Item, Opponent, QuestOffer,
    Snapshot,
};
use sf_autopilot::command::ExpeditionSetting;

fn attrs(strength: u32, dexterity: u32, intelligence: u32, constitution: u32, luck: u32) -> Attributes {
    Attributes { strength, dexterity, intelligence, constitution, luck }
}

fn item(slot: EquipmentSlot, price: u32, a: Attributes, armor: u32) -> Item {
    Item { slot: Some(slot), price, attributes: a, armor, min_dmg: 0, max_dmg: 0 }
}

fn weapon(a: Attributes, min_dmg: u32, max_dmg: u32) -> Item {
    Item { slot: Some(EquipmentSlot::Weapon), price: 10, attributes: a, armor: 0, min_dmg, max_dmg }
}

fn snapshot() -> Snapshot {
    Snapshot {
        now: 1_700_000_000,
        hour: 12,
        level: 100,
        mushrooms: 0,
        activity: Activity::Idle,
        tavern_idle: true,
        tasks: AvailableTasks::Quests,
        quests: vec![],
        expedition_offers: vec![],
        expedition_event_ongoing: false,
        questing_preference: ExpeditionSetting::PreferQuests,
        can_change_questing_preference: false,
        active_expedition: None,
        thirst_for_adventure_sec: 6000,
        beer_drunk: 0,
        thirsty_wanderer: false,
        beer_event: false,
        quicksand_glasses: 0,
        mushroom_skip_allowed: false,
        backpack: vec![],
        equipment: vec![],
        pending_unlocks: 0,
        portal_can_fight: false,
        light_dungeons: vec![],
        shadow_dungeons: vec![],
        dungeon_next_free_fight: None,
        arena_next_free_fight: None,
        opponents: vec![],
    }
}

fn road(thing: ExpeditionThing, heroism: i32) -> Road {
    Road { thing, heroism }
}

#[test]
fn dragon_prefers_bounty_in_any_order() {
    let orders = [
        vec![ExpeditionThing::Bait, ExpeditionThing::Unknown, ExpeditionThing::DragonBounty],
        vec![ExpeditionThing::DragonBounty, ExpeditionThing::Bait, ExpeditionThing::Unknown],
        vec![ExpeditionThing::Unknown, ExpeditionThing::DragonBounty, ExpeditionThing::Bait],
    ];
    for things in orders.iter() {
        let roads: Vec<Road> = things.iter().map(|t| road(*t, 0)).collect();
        let pick = pick_encounter(ExpeditionThing::Dragon, &roads).unwrap();
        assert_eq!(roads[pick].thing, ExpeditionThing::DragonBounty);
    }
}

#[test]
fn unmatched_roads_fall_back_to_heroism() {
    let roads = vec![
        road(ExpeditionThing::Other, 5),
        road(ExpeditionThing::Socks, 40),
        road(ExpeditionThing::Other, -3),
    ];
    assert_eq!(pick_encounter(ExpeditionThing::Dragon, &roads), Some(1));
    let negative = vec![road(ExpeditionThing::Other, -9), road(ExpeditionThing::Other, -2)];
    assert_eq!(pick_encounter(ExpeditionThing::Cake, &negative), Some(1));
}

#[test]
fn a_table_match_beats_any_heroism() {
    let roads = vec![road(ExpeditionThing::Other, i32::MAX), road(ExpeditionThing::Unknown, i32::MIN)];
    assert_eq!(pick_encounter(ExpeditionThing::Dragon, &roads), Some(1));
}

#[test]
fn equal_roads_take_the_earliest() {
    let roads = vec![road(ExpeditionThing::Cake, 1), road(ExpeditionThing::Cake, 9)];
    assert_eq!(pick_encounter(ExpeditionThing::Cake, &roads), Some(0));
    assert_eq!(pick_encounter(ExpeditionThing::Cake, &vec![]), None);
}

#[test]
fn tables_for_each_target() {
    assert_eq!(encounter_table(ExpeditionThing::Klaus).len(), 6);
    assert_eq!(encounter_table(ExpeditionThing::Klaus)[0], ExpeditionThing::KlausBounty);
    assert_eq!(
        encounter_table(ExpeditionThing::Other),
        vec![ExpeditionThing::DummyBounty, ExpeditionThing::Unknown]
    );
    let roads = vec![road(ExpeditionThing::DummyBounty, 0), road(ExpeditionThing::Hand, 0)];
    assert_eq!(pick_encounter(ExpeditionThing::Klaus, &roads), Some(1));
    assert_eq!(pick_encounter(ExpeditionThing::Unicorn, &roads), Some(0));
}

#[test]
fn reward_priority_order() {
    assert_eq!(pick_reward(&vec![]), None);
    let rewards = vec![RewardKind::Silver, RewardKind::Other, RewardKind::Mushrooms, RewardKind::Wood];
    assert_eq!(pick_reward(&rewards), Some(2));
    let rewards = vec![RewardKind::Other, RewardKind::LuckyCoins, RewardKind::LuckyCoins];
    assert_eq!(pick_reward(&rewards), Some(1));
    assert_eq!(pick_reward(&vec![RewardKind::Other, RewardKind::Other]), Some(0));
}

#[test]
fn attribute_score_weights() {
    assert_eq!(calculate_attribute_score(&attrs(1, 0, 0, 0, 0)), 1);
    assert_eq!(calculate_attribute_score(&attrs(0, 1, 0, 0, 0)), 5);
    assert_eq!(calculate_attribute_score(&attrs(0, 0, 1, 0, 0)), 1);
    assert_eq!(calculate_attribute_score(&attrs(0, 0, 0, 1, 0)), 4);
    assert_eq!(calculate_attribute_score(&attrs(0, 0, 0, 0, 1)), 2);
    assert_eq!(calculate_attribute_score(&attrs(10, 20, 30, 40, 50)), 10 + 100 + 30 + 160 + 100);
}

#[test]
fn item_scores() {
    assert_eq!(item_score_of(&item(EquipmentSlot::Hat, 1, attrs(1, 1, 1, 1, 1), 10)), 13 + 60);
    // average damage 15 weighted by 6
    assert_eq!(item_score_of(&weapon(attrs(0, 0, 0, 0, 0), 10, 20)), 90);
    assert_eq!(item_score_of(&weapon(attrs(0, 0, 0, 0, 0), 10, 11)), 63);
    let m = u32::MAX;
    assert_eq!(
        item_score_of(&weapon(attrs(m, m, m, m, m), m, m)),
        13 * m as u64 + 6 * m as u64
    );
}

#[test]
fn better_item_is_strictly_better() {
    let a = item(EquipmentSlot::Ring, 1, attrs(0, 2, 0, 0, 0), 0);
    let b = item(EquipmentSlot::Ring, 1, attrs(10, 0, 0, 0, 0), 0);
    assert!(!is_better_item(&a, &Some(b)));
    assert!(is_better_item(&b, &Some(item(EquipmentSlot::Ring, 1, attrs(9, 0, 0, 0, 0), 0))));
    assert!(is_better_item(&a, &None));
    let zero = item(EquipmentSlot::Ring, 1, attrs(0, 0, 0, 0, 0), 0);
    assert!(!is_better_item(&zero, &None));
}

#[test]
fn empty_slot_takes_single_matching_item() {
    let mut s = snapshot();
    s.equipment = vec![
        EquippedSlot { slot: EquipmentSlot::Hat, item: None },
        EquippedSlot { slot: EquipmentSlot::Belt, item: None },
    ];
    s.backpack = vec![
        Some(item(EquipmentSlot::Ring, 5, attrs(9, 9, 9, 9, 9), 9)),
        None,
        Some(item(EquipmentSlot::Belt, 5, attrs(0, 0, 0, 0, 0), 0)),
    ];
    let plan = Equip::new(s).equip();
    assert_eq!(plan, vec![Command::InventoryMove { inventory_from_pos: 2, inventory_to_pos: 1 }]);
}

#[test]
fn weapon_replaced_only_when_strictly_better() {
    let incumbent = weapon(attrs(10, 0, 0, 0, 0), 10, 20); // 10 + 90
    let mut s = snapshot();
    s.equipment = vec![EquippedSlot { slot: EquipmentSlot::Weapon, item: Some(incumbent) }];
    // equal score: 100 from attributes alone
    s.backpack = vec![Some(weapon(attrs(100, 0, 0, 0, 0), 0, 0))];
    assert_eq!(Equip::new(s.clone()).equip(), vec![]);
    // one point more through damage: 10 + (10 + 21) * 3 = 103 > 100
    s.backpack = vec![Some(weapon(attrs(10, 0, 0, 0, 0), 10, 21))];
    assert_eq!(
        Equip::new(s.clone()).equip(),
        vec![Command::InventoryMove { inventory_from_pos: 0, inventory_to_pos: 0 }]
    );
    // the best of several candidates, the earliest among equals
    s.backpack = vec![
        Some(weapon(attrs(0, 0, 0, 0, 0), 1, 1)),
        Some(weapon(attrs(200, 0, 0, 0, 0), 0, 0)),
        Some(weapon(attrs(200, 0, 0, 0, 0), 0, 0)),
    ];
    assert_eq!(
        Equip::new(s).equip(),
        vec![Command::InventoryMove { inventory_from_pos: 1, inventory_to_pos: 0 }]
    );
}

#[test]
fn worst_item_is_cheapest() {
    let h = |price| Some(item(EquipmentSlot::Hat, price, attrs(0, 0, 0, 0, 0), 0));
    assert_eq!(sell_the_worst_item(&vec![h(30), None, h(10), h(10)]), Some(2));
    assert_eq!(sell_the_worst_item(&vec![None, None]), None);
    assert_eq!(sell_the_worst_item(&vec![]), None);
    assert_eq!(sell_the_worst_item(&vec![None, h(u32::MAX)]), Some(1));
}

#[test]
fn lowest_open_dungeon() {
    assert_eq!(find_lowest_lvl_dungeon(&vec![None, Some(40), Some(12), Some(12)]), Some((2, 12)));
    assert_eq!(find_lowest_lvl_dungeon(&vec![None, None]), None);
    assert_eq!(find_lowest_lvl_dungeon(&vec![]), None);
}

#[test]
fn weakest_player_is_lowest_total() {
    let o = |s: u32, min: u32, max: u32| Opponent {
        base_attributes: attrs(s, 0, 0, 0, 0),
        bonus_attributes: attrs(0, 0, 0, 0, s),
        min_damage_base: min,
        max_damage_base: max,
    };
    // totals: 2*50 + 5 = 105, 2*40 + 10 = 90, 2*40 + 10 = 90
    assert_eq!(find_weakest_player(&vec![o(50, 4, 7), o(40, 9, 11), o(40, 10, 10)]), Some(1));
    assert_eq!(find_weakest_player(&vec![]), None);
}

#[test]
fn best_quest_by_experience() {
    let q = |xp| QuestOffer { base_experience: xp, base_length: 60, has_item: false };
    assert_eq!(best_quest(&vec![q(10), q(30), q(30)]), Some(1));
    assert_eq!(best_quest(&vec![]), None);
}

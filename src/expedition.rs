//! Expeditions: the per-archetype preference tables, the encounter and reward
//! selectors, and the decision for one tick of an expedition.

use crate::budget::{beer_affordable, may_buy_beer, shift_hours, time_of_day_deadline};
use crate::command::{Command, ExpeditionSetting, Halt, Step, TimeSkip};
use crate::scorer::{best_index, best_of, is_first_best, select_best};
use crate::snapshot::{ActiveExpedition, AvailableTasks, Snapshot};
use crate::wait::{wait_or_skip, wait_state, WaitState, SKIP_THRESHOLD_SECS};
use vstd::prelude::*;

verus! {

/// Work shifts are planned to end by this hour of the day.
pub const WORKDAY_CUTOFF_HOUR: u32 = 24;

/// Something met on an expedition road, or sought as its target.
#[derive(PartialEq, Eq, Structural, Clone, Copy, Debug)]
pub enum ExpeditionThing {
    ToiletPaper,
    ToiletPaperBounty,
    Dragon,
    DragonBounty,
    Bait,
    Cake,
    RoyalFrog,
    FrogBounty,
    Prince,
    BurntCampfire,
    BurntCampfireBounty,
    CampFire,
    Phoenix,
    WinnersPodium,
    WinnerPodiumBounty,
    SmallHurdle,
    BigHurdle,
    BrokenSword,
    BrokenSwordBounty,
    BentSword,
    SwordInStone,
    Klaus,
    KlausBounty,
    Body,
    Feet,
    Hand,
    Unicorn,
    UnicornBounty,
    Rainbow,
    Donkey,
    UnicornHorn,
    Balloons,
    BaloonBounty,
    Well,
    Girl,
    RevealingCouple,
    RevealingCoupleBounty,
    Socks,
    ClothPile,
    DummyBounty,
    /// Reported by the game as unknown.
    Unknown,
    /// Any other kind.
    Other,
}

/// A road at an expedition crossroads.
#[derive(PartialEq, Eq, Structural, Clone, Copy, Debug)]
pub struct Road {
    pub thing: ExpeditionThing,
    pub heroism: i32,
}

/// A kind of reward offered after an expedition boss.
#[derive(PartialEq, Eq, Structural, Clone, Copy, Debug)]
pub enum RewardKind {
    LuckyCoins,
    Mushrooms,
    Stone,
    Wood,
    QuicksandGlass,
    Silver,
    Other,
}

/// Where a running expedition stands.
#[derive(Clone, Debug)]
pub enum ExpeditionStage {
    Boss,
    Rewards(Vec<RewardKind>),
    Encounters(Vec<Road>),
    Waiting { busy_until: i64 },
    Finished,
    Unknown,
}

/// The encounter kinds preferred for a target, best first. A catch-all
/// `Unknown` closes the lists that have room for it.
pub open spec fn encounter_priorities(target: ExpeditionThing) -> Seq<ExpeditionThing> {
    match target {
        ExpeditionThing::ToiletPaper => seq![
            ExpeditionThing::ToiletPaperBounty,
            ExpeditionThing::ToiletPaper,
            ExpeditionThing::DummyBounty,
            ExpeditionThing::Unknown,
        ],
        ExpeditionThing::Dragon => seq![
            ExpeditionThing::DragonBounty,
            ExpeditionThing::Dragon,
            ExpeditionThing::Bait,
            ExpeditionThing::DummyBounty,
            ExpeditionThing::Unknown,
        ],
        ExpeditionThing::Cake => seq![
            ExpeditionThing::Cake,
            ExpeditionThing::DummyBounty,
            ExpeditionThing::Unknown,
        ],
        ExpeditionThing::RoyalFrog => seq![
            ExpeditionThing::FrogBounty,
            ExpeditionThing::RoyalFrog,
            ExpeditionThing::Prince,
            ExpeditionThing::DummyBounty,
            ExpeditionThing::Unknown,
        ],
        ExpeditionThing::BurntCampfire => seq![
            ExpeditionThing::BurntCampfireBounty,
            ExpeditionThing::BurntCampfire,
            ExpeditionThing::CampFire,
            ExpeditionThing::Phoenix,
            ExpeditionThing::DummyBounty,
            ExpeditionThing::Unknown,
        ],
        ExpeditionThing::WinnersPodium => seq![
            ExpeditionThing::WinnerPodiumBounty,
            ExpeditionThing::WinnersPodium,
            ExpeditionThing::SmallHurdle,
            ExpeditionThing::BigHurdle,
            ExpeditionThing::DummyBounty,
            ExpeditionThing::Unknown,
        ],
        ExpeditionThing::BrokenSword => seq![
            ExpeditionThing::BrokenSwordBounty,
            ExpeditionThing::BrokenSword,
            ExpeditionThing::BentSword,
            ExpeditionThing::SwordInStone,
            ExpeditionThing::DummyBounty,
            ExpeditionThing::Unknown,
        ],
        ExpeditionThing::Klaus => seq![
            ExpeditionThing::KlausBounty,
            ExpeditionThing::Klaus,
            ExpeditionThing::Body,
            ExpeditionThing::Feet,
            ExpeditionThing::Hand,
            ExpeditionThing::DummyBounty,
        ],
        ExpeditionThing::Unicorn => seq![
            ExpeditionThing::UnicornBounty,
            ExpeditionThing::Unicorn,
            ExpeditionThing::Rainbow,
            ExpeditionThing::Donkey,
            ExpeditionThing::UnicornHorn,
            ExpeditionThing::DummyBounty,
        ],
        ExpeditionThing::Balloons => seq![
            ExpeditionThing::BaloonBounty,
            ExpeditionThing::Balloons,
            ExpeditionThing::Well,
            ExpeditionThing::Girl,
            ExpeditionThing::DummyBounty,
            ExpeditionThing::Unknown,
        ],
        ExpeditionThing::RevealingCouple => seq![
            ExpeditionThing::RevealingCoupleBounty,
            ExpeditionThing::RevealingCouple,
            ExpeditionThing::Socks,
            ExpeditionThing::ClothPile,
            ExpeditionThing::DummyBounty,
            ExpeditionThing::Unknown,
        ],
        _ => seq![ExpeditionThing::DummyBounty, ExpeditionThing::Unknown],
    }
}

/// The preference table for a target, as a list.
pub fn encounter_table(target: ExpeditionThing) -> (r: Vec<ExpeditionThing>)
    ensures
        r@ == encounter_priorities(target),
{
    let r = match target {
        ExpeditionThing::ToiletPaper => vec![
            ExpeditionThing::ToiletPaperBounty,
            ExpeditionThing::ToiletPaper,
            ExpeditionThing::DummyBounty,
            ExpeditionThing::Unknown,
        ],
        ExpeditionThing::Dragon => vec![
            ExpeditionThing::DragonBounty,
            ExpeditionThing::Dragon,
            ExpeditionThing::Bait,
            ExpeditionThing::DummyBounty,
            ExpeditionThing::Unknown,
        ],
        ExpeditionThing::Cake => vec![
            ExpeditionThing::Cake,
            ExpeditionThing::DummyBounty,
            ExpeditionThing::Unknown,
        ],
        ExpeditionThing::RoyalFrog => vec![
            ExpeditionThing::FrogBounty,
            ExpeditionThing::RoyalFrog,
            ExpeditionThing::Prince,
            ExpeditionThing::DummyBounty,
            ExpeditionThing::Unknown,
        ],
        ExpeditionThing::BurntCampfire => vec![
            ExpeditionThing::BurntCampfireBounty,
            ExpeditionThing::BurntCampfire,
            ExpeditionThing::CampFire,
            ExpeditionThing::Phoenix,
            ExpeditionThing::DummyBounty,
            ExpeditionThing::Unknown,
        ],
        ExpeditionThing::WinnersPodium => vec![
            ExpeditionThing::WinnerPodiumBounty,
            ExpeditionThing::WinnersPodium,
            ExpeditionThing::SmallHurdle,
            ExpeditionThing::BigHurdle,
            ExpeditionThing::DummyBounty,
            ExpeditionThing::Unknown,
        ],
        ExpeditionThing::BrokenSword => vec![
            ExpeditionThing::BrokenSwordBounty,
            ExpeditionThing::BrokenSword,
            ExpeditionThing::BentSword,
            ExpeditionThing::SwordInStone,
            ExpeditionThing::DummyBounty,
            ExpeditionThing::Unknown,
        ],
        ExpeditionThing::Klaus => vec![
            ExpeditionThing::KlausBounty,
            ExpeditionThing::Klaus,
            ExpeditionThing::Body,
            ExpeditionThing::Feet,
            ExpeditionThing::Hand,
            ExpeditionThing::DummyBounty,
        ],
        ExpeditionThing::Unicorn => vec![
            ExpeditionThing::UnicornBounty,
            ExpeditionThing::Unicorn,
            ExpeditionThing::Rainbow,
            ExpeditionThing::Donkey,
            ExpeditionThing::UnicornHorn,
            ExpeditionThing::DummyBounty,
        ],
        ExpeditionThing::Balloons => vec![
            ExpeditionThing::BaloonBounty,
            ExpeditionThing::Balloons,
            ExpeditionThing::Well,
            ExpeditionThing::Girl,
            ExpeditionThing::DummyBounty,
            ExpeditionThing::Unknown,
        ],
        ExpeditionThing::RevealingCouple => vec![
            ExpeditionThing::RevealingCoupleBounty,
            ExpeditionThing::RevealingCouple,
            ExpeditionThing::Socks,
            ExpeditionThing::ClothPile,
            ExpeditionThing::DummyBounty,
            ExpeditionThing::Unknown,
        ],
        _ => vec![ExpeditionThing::DummyBounty, ExpeditionThing::Unknown],
    };
    assert(r@ =~= encounter_priorities(target));
    r
}

/// Reward kinds, most wanted first.
pub open spec fn reward_priorities() -> Seq<RewardKind> {
    seq![
        RewardKind::LuckyCoins,
        RewardKind::Mushrooms,
        RewardKind::Stone,
        RewardKind::Wood,
        RewardKind::QuicksandGlass,
        RewardKind::Silver,
    ]
}

/// The reward preference list.
pub fn reward_table() -> (r: Vec<RewardKind>)
    ensures
        r@ == reward_priorities(),
{
    let r = vec![
        RewardKind::LuckyCoins,
        RewardKind::Mushrooms,
        RewardKind::Stone,
        RewardKind::Wood,
        RewardKind::QuicksandGlass,
        RewardKind::Silver,
    ];
    assert(r@ =~= reward_priorities());
    r
}

/// The first position of `x` in `s`; the length of `s` when it is absent.
pub open spec fn first_pos<T>(s: Seq<T>, x: T) -> nat
    decreases s.len(),
{
    if s.len() == 0 {
        0
    } else if s[0] == x {
        0
    } else {
        1 + first_pos(s.drop_first(), x)
    }
}

/// `p` is the first position of `x` in `s`, or the length when it is absent.
pub proof fn lemma_first_pos<T>(s: Seq<T>, x: T, p: int)
    requires
        0 <= p <= s.len(),
        p < s.len() ==> s[p] == x,
        forall|j: int| 0 <= j < p ==> s[j] != x,
    ensures
        first_pos(s, x) == p,
    decreases s.len(),
{
    if p > 0 {
        assert(s[0] != x);
        let t = s.drop_first();
        assert forall|j: int| 0 <= j < p - 1 implies t[j] != x by {
            assert(t[j] == s[j + 1]);
        }
        lemma_first_pos(t, x, p - 1);
    }
}

/// A first position is never past the end.
pub proof fn lemma_first_pos_bound<T>(s: Seq<T>, x: T)
    ensures
        first_pos(s, x) <= s.len(),
    decreases s.len(),
{
    if s.len() > 0 {
        lemma_first_pos_bound(s.drop_first(), x);
    }
}

/// How strongly a list prefers `x`: its length less the position of `x`;
/// zero when absent.
pub open spec fn rank<T>(s: Seq<T>, x: T) -> nat {
    (s.len() - first_pos(s, x)) as nat
}

/// The rank of an encounter kind in a preference table.
pub fn encounter_rank(list: &Vec<ExpeditionThing>, x: ExpeditionThing) -> (r: u64)
    requires
        list@.len() <= u64::MAX,
    ensures
        r == rank(list@, x),
{
    let mut i: usize = 0;
    while i < list.len()
        invariant
            i <= list@.len(),
            forall|j: int| 0 <= j < i ==> list@[j] != x,
        decreases list@.len() - i,
    {
        if list[i] == x {
            proof {
                lemma_first_pos(list@, x, i as int);
            }
            return (list.len() - i) as u64;
        }
        i += 1;
    }
    proof {
        lemma_first_pos(list@, x, i as int);
    }
    0
}

/// The rank of a reward kind in the preference list.
pub fn reward_rank(list: &Vec<RewardKind>, x: RewardKind) -> (r: u64)
    requires
        list@.len() <= u64::MAX,
    ensures
        r == rank(list@, x),
{
    let mut i: usize = 0;
    while i < list.len()
        invariant
            i <= list@.len(),
            forall|j: int| 0 <= j < i ==> list@[j] != x,
        decreases list@.len() - i,
    {
        if list[i] == x {
            proof {
                lemma_first_pos(list@, x, i as int);
            }
            return (list.len() - i) as u64;
        }
        i += 1;
    }
    proof {
        lemma_first_pos(list@, x, i as int);
    }
    0
}

/// Keeps the heroism of an unmatched road apart from the table ranks.
pub const RANK_SCALE: u64 = 0x1_0000_0000;

/// The score of a road for a target: its table rank first; among roads the
/// table does not name, the heroism decides.
pub open spec fn road_key(target: ExpeditionThing, road: Road) -> u64 {
    let r = rank(encounter_priorities(target), road.thing);
    if r == 0 {
        (road.heroism as int + 0x8000_0000) as u64
    } else {
        (r * RANK_SCALE) as u64
    }
}

pub open spec fn road_keys(target: ExpeditionThing, roads: Seq<Road>) -> Seq<u64> {
    roads.map_values(|road: Road| road_key(target, road))
}

/// Road keys order roads by table rank, and unmatched roads by heroism.
pub proof fn lemma_road_key_order(target: ExpeditionThing, a: Road, b: Road)
    ensures
        ({
            let t = encounter_priorities(target);
            let (ra, rb) = (rank(t, a.thing), rank(t, b.thing));
            road_key(target, a) < road_key(target, b) <==> (ra < rb || (ra == 0 && rb == 0
                && a.heroism < b.heroism))
        }),
{
    let t = encounter_priorities(target);
    let (ra, rb) = (rank(t, a.thing), rank(t, b.thing));
    assert(t.len() <= 6);
    lemma_first_pos_bound(t, a.thing);
    lemma_first_pos_bound(t, b.thing);
    if ra != 0 && rb != 0 {
        assert(ra * RANK_SCALE < rb * RANK_SCALE <==> ra < rb) by (nonlinear_arith);
    }
    if ra == 0 && rb != 0 {
        assert(rb * RANK_SCALE >= RANK_SCALE) by (nonlinear_arith)
            requires rb >= 1;
    }
    if ra != 0 && rb == 0 {
        assert(ra * RANK_SCALE >= RANK_SCALE) by (nonlinear_arith)
            requires ra >= 1;
    }
}

/// The key of one road.
fn road_key_of(target: ExpeditionThing, table: &Vec<ExpeditionThing>, road: Road) -> (r: u64)
    requires
        table@ == encounter_priorities(target),
    ensures
        r == road_key(target, road),
{
    let rk = encounter_rank(table, road.thing);
    proof {
        lemma_first_pos_bound(table@, road.thing);
    }
    assert(rk <= 6);
    if rk == 0 {
        (road.heroism as i64 + 0x8000_0000) as u64
    } else {
        rk * RANK_SCALE
    }
}

/// Picks the road to take towards `target`: the one its table ranks highest,
/// or, where the table names none of them, the one with the most heroism;
/// the earliest among equals. `None` when there is no road.
pub fn pick_encounter(target: ExpeditionThing, roads: &Vec<Road>) -> (r: Option<usize>)
    ensures
        r is None <==> roads@.len() == 0,
        r matches Some(i) ==> is_first_best(road_keys(target, roads@), i as int),
        r == best_of(road_keys(target, roads@)),
{
    let table = encounter_table(target);
    let mut keys: Vec<u64> = Vec::new();
    let mut i: usize = 0;
    while i < roads.len()
        invariant
            i <= roads@.len(),
            table@ == encounter_priorities(target),
            keys@ == road_keys(target, roads@.take(i as int)),
        decreases roads@.len() - i,
    {
        keys.push(road_key_of(target, &table, roads[i]));
        proof {
            assert(roads@.take(i + 1) == roads@.take(i as int).push(roads@[i as int]));
        }
        i += 1;
        assert(keys@ =~= road_keys(target, roads@.take(i as int)));
    }
    assert(roads@.take(i as int) =~= roads@);
    select_best(&keys)
}

pub open spec fn reward_scores(rewards: Seq<RewardKind>) -> Seq<u64> {
    rewards.map_values(|k: RewardKind| rank(reward_priorities(), k) as u64)
}

/// Picks the reward whose kind stands first in the preference list; kinds the
/// list does not name come last; the earliest among equals. `None` when
/// nothing is offered.
pub fn pick_reward(rewards: &Vec<RewardKind>) -> (r: Option<usize>)
    ensures
        r is None <==> rewards@.len() == 0,
        r matches Some(i) ==> is_first_best(reward_scores(rewards@), i as int),
        r == best_of(reward_scores(rewards@)),
{
    let table = reward_table();
    let mut scores: Vec<u64> = Vec::new();
    let mut i: usize = 0;
    while i < rewards.len()
        invariant
            i <= rewards@.len(),
            table@ == reward_priorities(),
            scores@ == reward_scores(rewards@.take(i as int)),
        decreases rewards@.len() - i,
    {
        scores.push(reward_rank(&table, rewards[i]));
        proof {
            assert(rewards@.take(i + 1) == rewards@.take(i as int).push(rewards@[i as int]));
        }
        i += 1;
        assert(scores@ =~= reward_scores(rewards@.take(i as int)));
    }
    assert(rewards@.take(i as int) =~= rewards@);
    select_best(&scores)
}

/// Hours of work to ask for at the given hour.
pub open spec fn work_hours(hour: u32) -> u8 {
    shift_hours(hour, WORKDAY_CUTOFF_HOUR) as u8
}

/// What thirst for adventure allows: go on, buy a beer, or start work.
pub open spec fn thirst_gate(s: Snapshot, needed: u32, go: Step) -> Step {
    if needed > s.thirst_for_adventure_sec {
        if beer_affordable(
            s.mushrooms as u64,
            s.beer_drunk as u64,
            s.thirsty_wanderer,
            s.beer_event,
        ) {
            Step::Run(Command::BuyBeer)
        } else {
            Step::RunThenStop(Command::StartWork { hours: work_hours(s.hour) }, Halt::WorkStarted)
        }
    } else {
        go
    }
}

/// The decision when no expedition runs.
pub open spec fn idle_expedition_step(s: Snapshot) -> Step {
    if !s.tavern_idle {
        Step::Stop(Halt::NotIdle)
    } else {
        match s.tasks {
            AvailableTasks::Quests => {
                if !s.expedition_event_ongoing {
                    Step::Stop(Halt::ExpeditionsDisabled)
                } else if s.questing_preference == ExpeditionSetting::PreferQuests {
                    if !s.can_change_questing_preference {
                        Step::Stop(Halt::SettingLocked)
                    } else {
                        Step::Run(
                            Command::SetQuestsInsteadOfExpeditions {
                                value: ExpeditionSetting::PreferExpeditions,
                            },
                        )
                    }
                } else {
                    Step::Stop(Halt::NoExpeditions)
                }
            },
            AvailableTasks::Expeditions => {
                if s.expedition_offers.len() == 0 {
                    Step::Stop(Halt::NoExpeditions)
                } else {
                    thirst_gate(
                        s,
                        s.expedition_offers[0].thirst_for_adventure_sec,
                        Step::Run(Command::ExpeditionStart { pos: 0 }),
                    )
                }
            },
        }
    }
}

/// The decision for a running expedition.
pub open spec fn stage_step(a: ActiveExpedition, now: i64, quicksand_glasses: u32) -> Step {
    match a.stage {
        ExpeditionStage::Boss => Step::Run(Command::ExpeditionContinue),
        ExpeditionStage::Rewards(rewards) => {
            if rewards.len() == 0 {
                Step::Repoll
            } else {
                Step::Run(
                    Command::ExpeditionPickReward {
                        pos: best_index(reward_scores(rewards@)) as usize,
                    },
                )
            }
        },
        ExpeditionStage::Encounters(roads) => {
            if roads.len() == 0 {
                Step::Repoll
            } else {
                Step::Run(
                    Command::ExpeditionPickEncounter {
                        pos: best_index(road_keys(a.target_thing, roads@)) as usize,
                    },
                )
            }
        },
        ExpeditionStage::Waiting { busy_until } => {
            match wait_state(now, busy_until, quicksand_glasses as u64, SKIP_THRESHOLD_SECS) {
                WaitState::Ready => Step::Run(Command::Update),
                WaitState::Skippable => Step::Run(
                    Command::ExpeditionSkipWait { typ: TimeSkip::Glass },
                ),
                WaitState::MustWait { seconds } => Step::Sleep { seconds },
            }
        },
        ExpeditionStage::Finished => Step::Repoll,
        ExpeditionStage::Unknown => Step::Repoll,
    }
}

/// The decision for one tick of the expedition activity.
pub open spec fn expedition_step(s: Snapshot) -> Step {
    match s.active_expedition {
        None => idle_expedition_step(s),
        Some(a) => stage_step(a, s.now, s.quicksand_glasses),
    }
}

/// Hours of work to ask for at the given hour of day.
pub fn work_hours_at(hour: u32) -> (r: u8)
    ensures
        r == work_hours(hour),
{
    time_of_day_deadline(hour, WORKDAY_CUTOFF_HOUR) as u8
}

/// Decides what thirst for adventure allows before a task of `needed`
/// seconds: `go`, or a beer, or work.
pub fn check_thirst(s: &Snapshot, needed: u32, go: Step) -> (r: Step)
    ensures
        r == thirst_gate(*s, needed, go),
{
    if needed > s.thirst_for_adventure_sec {
        if may_buy_beer(s.mushrooms as u64, s.beer_drunk as u64, s.thirsty_wanderer, s.beer_event) {
            Step::Run(Command::BuyBeer)
        } else {
            Step::RunThenStop(Command::StartWork { hours: work_hours_at(s.hour) }, Halt::WorkStarted)
        }
    } else {
        go
    }
}

/// The expedition activity, deciding on one snapshot.
pub struct Exping {
    pub snapshot: Snapshot,
}

impl Exping {
    pub fn new(snapshot: Snapshot) -> (r: Exping)
        ensures
            r.snapshot == snapshot,
    {
        Exping { snapshot }
    }

    /// One tick: start an expedition when idle (after the setting, thirst and
    /// beer checks), else act on its stage: fight the boss, pick the best
    /// reward or road, skip or wait out a timer.
    #[allow(non_snake_case)]
    pub fn Exping(&self) -> (r: Step)
        ensures
            r == expedition_step(self.snapshot),
    {
        let s = &self.snapshot;
        match &s.active_expedition {
            None => {
                if !s.tavern_idle {
                    return Step::Stop(Halt::NotIdle);
                }
                match s.tasks {
                    AvailableTasks::Quests => {
                        if !s.expedition_event_ongoing {
                            Step::Stop(Halt::ExpeditionsDisabled)
                        } else if s.questing_preference == ExpeditionSetting::PreferQuests {
                            if !s.can_change_questing_preference {
                                Step::Stop(Halt::SettingLocked)
                            } else {
                                Step::Run(
                                    Command::SetQuestsInsteadOfExpeditions {
                                        value: ExpeditionSetting::PreferExpeditions,
                                    },
                                )
                            }
                        } else {
                            Step::Stop(Halt::NoExpeditions)
                        }
                    },
                    AvailableTasks::Expeditions => {
                        if s.expedition_offers.len() == 0 {
                            Step::Stop(Halt::NoExpeditions)
                        } else {
                            check_thirst(
                                s,
                                s.expedition_offers[0].thirst_for_adventure_sec,
                                Step::Run(Command::ExpeditionStart { pos: 0 }),
                            )
                        }
                    },
                }
            },
            Some(a) => match &a.stage {
                ExpeditionStage::Boss => Step::Run(Command::ExpeditionContinue),
                ExpeditionStage::Rewards(rewards) => match pick_reward(rewards) {
                    None => Step::Repoll,
                    Some(pos) => Step::Run(Command::ExpeditionPickReward { pos }),
                },
                ExpeditionStage::Encounters(roads) => match pick_encounter(a.target_thing, roads) {
                    None => Step::Repoll,
                    Some(pos) => Step::Run(Command::ExpeditionPickEncounter { pos }),
                },
                ExpeditionStage::Waiting { busy_until } => {
                    match wait_or_skip(
                        s.now,
                        *busy_until,
                        s.quicksand_glasses as u64,
                        SKIP_THRESHOLD_SECS,
                    ) {
                        WaitState::Ready => Step::Run(Command::Update),
                        WaitState::Skippable => Step::Run(
                            Command::ExpeditionSkipWait { typ: TimeSkip::Glass },
                        ),
                        WaitState::MustWait { seconds } => Step::Sleep { seconds },
                    }
                },
                ExpeditionStage::Finished => Step::Repoll,
                ExpeditionStage::Unknown => Step::Repoll,
            },
        }
    }
}

} // verus!

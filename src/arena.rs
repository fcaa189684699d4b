//! The arena: the weakest opponent, and whether to fight now.

use crate::clock::{remaining_secs, time_remaining};
use crate::command::{Command, Halt, Step};
use crate::scorer::{best_of, inverted, is_first_lowest, select_lowest};
use crate::snapshot::{Attributes, Opponent, Snapshot};
use vstd::prelude::*;

verus! {

pub open spec fn attribute_sum(a: Attributes) -> int {
    a.strength + a.dexterity + a.intelligence + a.constitution + a.luck
}

/// An opponent's strength: all base and bonus attributes plus the average
/// base damage, rounded down.
pub open spec fn opponent_strength(o: Opponent) -> u64 {
    (attribute_sum(o.base_attributes) + attribute_sum(o.bonus_attributes) + (o.min_damage_base
        + o.max_damage_base) / 2) as u64
}

pub open spec fn opponent_strengths(opponents: Seq<Opponent>) -> Seq<u64> {
    opponents.map_values(|o: Opponent| opponent_strength(o))
}

fn attribute_sum_of(a: &Attributes) -> (r: u64)
    ensures
        r == attribute_sum(*a),
{
    a.strength as u64 + a.dexterity as u64 + a.intelligence as u64 + a.constitution as u64
        + a.luck as u64
}

/// Finds the weakest opponent, the earliest among equals. `None` when there
/// is none.
pub fn find_weakest_player(opponents: &Vec<Opponent>) -> (r: Option<usize>)
    ensures
        r is None <==> opponents@.len() == 0,
        r matches Some(i) ==> is_first_lowest(opponent_strengths(opponents@), i as int),
        r == best_of(inverted(opponent_strengths(opponents@))),
{
    let mut keys: Vec<u64> = Vec::new();
    let mut i: usize = 0;
    while i < opponents.len()
        invariant
            i <= opponents@.len(),
            keys@ == opponent_strengths(opponents@.take(i as int)),
        decreases opponents@.len() - i,
    {
        let o = &opponents[i];
        keys.push(
            attribute_sum_of(&o.base_attributes) + attribute_sum_of(&o.bonus_attributes) + (
            o.min_damage_base as u64 + o.max_damage_base as u64) / 2,
        );
        proof {
            assert(opponents@.take(i + 1) == opponents@.take(i as int).push(opponents@[i as int]));
        }
        i += 1;
        assert(keys@ =~= opponent_strengths(opponents@.take(i as int)));
    }
    assert(opponents@.take(i as int) =~= opponents@);
    select_lowest(&keys)
}

/// A free arena fight is available: no timer, or the timer has run out.
pub open spec fn arena_ready_spec(next_free_fight: Option<i64>, now: i64) -> bool {
    match next_free_fight {
        None => true,
        Some(t) => remaining_secs(t, now) == 0,
    }
}

/// Whether a free arena fight is available at `now`.
pub fn arena_ready(next_free_fight: Option<i64>, now: i64) -> (r: bool)
    ensures
        r == arena_ready_spec(next_free_fight, now),
{
    match next_free_fight {
        None => true,
        Some(t) => time_remaining(t, now) == 0,
    }
}

/// The decision for one pass of the arena activity.
pub open spec fn arena_step(s: Snapshot) -> Step {
    if !arena_ready_spec(s.arena_next_free_fight, s.now) {
        Step::Stop(Halt::ArenaCooldown)
    } else {
        match best_of(inverted(opponent_strengths(s.opponents@))) {
            None => Step::Stop(Halt::NoOpponent),
            Some(i) => Step::RunThenStop(Command::Fight { opponent: i, use_mushroom: false }, Halt::ArenaFought),
        }
    }
}

/// The arena activity, deciding on one snapshot.
pub struct Arena {
    pub snapshot: Snapshot,
}

impl Arena {
    pub fn new(snapshot: Snapshot) -> (r: Arena)
        ensures
            r.snapshot == snapshot,
    {
        Arena { snapshot }
    }

    /// When a free fight is available, fight the weakest opponent once.
    pub fn fight_arena(&self) -> (r: Step)
        ensures
            r == arena_step(self.snapshot),
    {
        if !arena_ready(self.snapshot.arena_next_free_fight, self.snapshot.now) {
            return Step::Stop(Halt::ArenaCooldown);
        }
        match find_weakest_player(&self.snapshot.opponents) {
            None => Step::Stop(Halt::NoOpponent),
            Some(i) => Step::RunThenStop(
                Command::Fight { opponent: i, use_mushroom: false },
                Halt::ArenaFought,
            ),
        }
    }
}

} // verus!

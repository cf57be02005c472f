//! What holds of a war machine over many ticks in a row.
//!
//! A run takes a unit through a sequence of ticks on one spot: that is the
//! case whenever no step asks for an advance.

use vstd::prelude::*;
use crate::battle::states::{Attacking, CreatureState};
use crate::battle::war_machines::{faces_left, step_spec, stepped, Action, Step, WarMachine};
use crate::geometry::{lemma_out_of_range_is_beyond_half, within, Point};
use crate::targeting::{any_within, lemma_nearest_properties, nearest};

verus! {

/// What a unit meets in one tick: where the sheep stand, and whether the
/// unit's animation has run to its end.
pub struct Tick {
    pub sheep: Seq<Point>,
    pub animation_finished: bool,
}

/// The step that a unit takes in a tick.
pub open spec fn step_in(wm: WarMachine, tick: Tick) -> Step {
    step_spec(wm, tick.sheep, tick.animation_finished)
}

/// The unit after the given ticks, one step per tick.
pub open spec fn run(wm: WarMachine, ticks: Seq<Tick>) -> WarMachine
    decreases ticks.len(),
{
    if ticks.len() == 0 {
        wm
    } else {
        let before = run(wm, ticks.drop_last());
        stepped(before, step_in(before, ticks.last()))
    }
}

/// The number of strikes that the unit deals over the given ticks.
pub open spec fn strikes(wm: WarMachine, ticks: Seq<Tick>) -> nat
    decreases ticks.len(),
{
    if ticks.len() == 0 {
        0
    } else {
        let before = run(wm, ticks.drop_last());
        let earlier = strikes(wm, ticks.drop_last());
        if step_in(before, ticks.last()).action is Strike {
            earlier + 1
        } else {
            earlier
        }
    }
}

/// An idle unit that never has a sheep within spotting range stays as it is
/// for any number of ticks, and no tick asks anything of the host.
pub proof fn lemma_idle_stays_idle(wm: WarMachine, ticks: Seq<Tick>)
    requires
        wm.state is Idling,
        forall|k: int|
            0 <= k < ticks.len() ==> !any_within(
                wm.creature.position,
                (#[trigger] ticks[k]).sheep,
                wm.creature.attack.spotting_range as int,
            ),
    ensures
        run(wm, ticks) == wm,
        forall|k: int|
            0 <= k < ticks.len() ==> step_in(wm, #[trigger] ticks[k]) == (Step {
                state: wm.state,
                action: Action::Nothing,
            }),
    decreases ticks.len(),
{
    if ticks.len() > 0 {
        let front = ticks.drop_last();
        assert(forall|k: int| 0 <= k < front.len() ==> front[k] == ticks[k]);
        lemma_idle_stays_idle(wm, front);
        assert(ticks.last() == ticks[ticks.len() - 1]);
    }
}

/// A walking unit whose target has come within attack range starts an
/// attack, and the step that starts it deals no damage yet.
pub proof fn lemma_walking_starts_attack(wm: WarMachine, tick: Tick, target: int)
    requires
        wm.state is Walking,
        nearest(wm.creature.position, tick.sheep, wm.creature.attack.spotting_range as int) == Some(
            target,
        ),
        within(wm.creature.position, tick.sheep[target], wm.creature.attack.attack_range as int),
    ensures
        step_in(wm, tick) == (Step {
            state: CreatureState::Attacking(Attacking { has_started: false }),
            action: Action::Nothing,
        }),
{
}

/// A walking unit whose target is out of attack range always advances on
/// it: whoever is out of range is at least half the range away.
pub proof fn lemma_walking_advances(wm: WarMachine, tick: Tick, target: int)
    requires
        wm.state is Walking,
        nearest(wm.creature.position, tick.sheep, wm.creature.attack.spotting_range as int) == Some(
            target,
        ),
        !within(wm.creature.position, tick.sheep[target], wm.creature.attack.attack_range as int),
    ensures
        step_in(wm, tick).state == wm.state,
        step_in(wm, tick).action == (Action::Advance {
            target: target as usize,
            flip_x: faces_left(wm.creature.position, tick.sheep[target]),
        }),
{
    lemma_out_of_range_is_beyond_half(
        wm.creature.position,
        tick.sheep[target],
        wm.creature.attack.attack_range as int,
    );
    lemma_nearest_properties(wm.creature.position, tick.sheep, wm.creature.attack.spotting_range as int);
}

/// A unit that has started an attack with a sheep within attack range
/// strikes exactly once, on the first tick, however many ticks the attack
/// lasts before its animation ends; until then it stays in the attack.
pub proof fn lemma_attack_strikes_once(wm: WarMachine, ticks: Seq<Tick>)
    requires
        wm.state == CreatureState::Attacking(Attacking { has_started: false }),
        ticks.len() >= 1,
        any_within(wm.creature.position, ticks[0].sheep, wm.creature.attack.attack_range as int),
        forall|k: int| 1 <= k < ticks.len() ==> !(#[trigger] ticks[k]).animation_finished,
    ensures
        strikes(wm, ticks) == 1,
        run(wm, ticks).state == CreatureState::Attacking(Attacking { has_started: true }),
        run(wm, ticks).creature == wm.creature,
        step_in(wm, ticks[0]).action is Strike,
    decreases ticks.len(),
{
    let front = ticks.drop_last();
    lemma_nearest_properties(wm.creature.position, ticks[0].sheep, wm.creature.attack.attack_range as int);
    if ticks.len() == 1 {
        assert(front.len() == 0);
        assert(run(wm, front) == wm);
        assert(strikes(wm, front) == 0);
        assert(ticks.last() == ticks[0]);
    } else {
        assert(forall|k: int| 0 <= k < front.len() ==> front[k] == ticks[k]);
        lemma_attack_strikes_once(wm, front);
        assert(ticks.last() == ticks[ticks.len() - 1]);
        assert(!ticks.last().animation_finished);
    }
}

/// Once the animation of a started attack has ended, the unit goes back to
/// idling without another strike.
pub proof fn lemma_attack_ends_idle(wm: WarMachine, tick: Tick)
    requires
        wm.state == CreatureState::Attacking(Attacking { has_started: true }),
        tick.animation_finished,
    ensures
        step_in(wm, tick).state is Idling,
        step_in(wm, tick).action == Action::Nothing,
{
}

/// An attack leads to idling, never straight back to walking: the unit has
/// to spot its target anew before it approaches again.
pub proof fn lemma_attack_never_walks(wm: WarMachine, tick: Tick)
    requires
        wm.state is Attacking,
    ensures
        step_in(wm, tick).state is Attacking || step_in(wm, tick).state is Idling,
        !(step_in(wm, tick).action is Advance),
{
}

/// Only the first tick of an attack can strike: a unit in any other state
/// deals no damage.
pub proof fn lemma_only_fresh_attack_strikes(wm: WarMachine, tick: Tick)
    requires
        step_in(wm, tick).action is Strike,
    ensures
        wm.state == CreatureState::Attacking(Attacking { has_started: false }),
        step_in(wm, tick).state == CreatureState::Attacking(Attacking { has_started: true }),
{
}

} // verus!

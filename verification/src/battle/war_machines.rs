//! The hostile units and the state machine that drives each of them.
//!
//! Every tick a war machine takes one step. The step depends on the state it
//! is in, on where the sheep stand, and on whether the animation that the
//! state started has run to its end. It yields the next state and one
//! action.

use vstd::prelude::*;
use crate::battle::states::{Attacking, CreatureState, Dying, Idling, Walking};
use crate::battle::{BATTLEFIELD_BOUNDS_X, BATTLEFIELD_BOUNDS_Y};
use crate::geometry::{
    advance, advanced, beyond_half, is_beyond_half, is_within, positions_of, within, Point, Positioned,
};
use crate::targeting::{any_within, nearest, nearest_within};
use crate::utils::{bounds_check, clamped, BehaviourType, Bounds, Creature};

verus! {

/// A hostile unit.
#[derive(Clone, Copy, Debug, PartialEq, Eq, Structural)]
pub struct WarMachine {
    pub creature: Creature,
    pub behaviour: BehaviourType,
    pub state: CreatureState,
    /// The unit looks to the left.
    pub flip_x: bool,
}

impl Positioned for WarMachine {
    open spec fn position_spec(&self) -> Point {
        self.creature.position
    }

    fn position(&self) -> (p: Point) {
        self.creature.position
    }
}

/// What a step entails beyond the change of state.
#[derive(Clone, Copy, Debug, PartialEq, Eq, Structural)]
pub enum Action {
    Nothing,
    /// The unit moves towards the sheep at place `target` by its speed times
    /// the length of the tick, and looks to the left if `flip_x`.
    Advance { target: usize, flip_x: bool },
    /// The sheep at place `target` loses `damage` of its health, once, and
    /// the unit looks to the left if `flip_x`.
    Strike { target: usize, damage: u64, flip_x: bool },
    /// The unit leaves the field for good.
    Remove,
}

/// The outcome of one step of one unit.
#[derive(Clone, Copy, Debug, PartialEq, Eq, Structural)]
pub struct Step {
    pub state: CreatureState,
    pub action: Action,
}

/// A unit at `from` that turns towards `to` looks to the left.
pub open spec fn faces_left(from: Point, to: Point) -> bool {
    to.x <= from.x
}

/// An idle unit starts to walk as soon as a sheep is within its spotting
/// range.
pub open spec fn idling_spec(wm: WarMachine, sheep: Seq<Point>) -> Step {
    Step {
        state: if any_within(wm.creature.position, sheep, wm.creature.attack.spotting_range as int) {
            CreatureState::Walking(Walking)
        } else {
            CreatureState::Idling(Idling)
        },
        action: Action::Nothing,
    }
}

/// A walking unit goes back to idling when it spots nobody, starts an attack
/// when its target is within attack range, and else advances on the target
/// as long as that is at least half the attack range away.
pub open spec fn walking_spec(wm: WarMachine, sheep: Seq<Point>) -> Step {
    let here = wm.creature.position;
    let attack = wm.creature.attack;
    match nearest(here, sheep, attack.spotting_range as int) {
        None => Step { state: CreatureState::Idling(Idling), action: Action::Nothing },
        Some(t) => if within(here, sheep[t], attack.attack_range as int) {
            Step {
                state: CreatureState::Attacking(Attacking { has_started: false }),
                action: Action::Nothing,
            }
        } else if beyond_half(here, sheep[t], attack.attack_range as int) {
            Step {
                state: CreatureState::Walking(Walking),
                action: match wm.behaviour {
                    BehaviourType::ChasingClosest => Action::Advance {
                        target: t as usize,
                        flip_x: faces_left(here, sheep[t]),
                    },
                },
            }
        } else {
            Step { state: CreatureState::Walking(Walking), action: Action::Nothing }
        },
    }
}

/// The first tick of an attack strikes the nearest sheep within attack
/// range, or ends the attack where there is none. Later ticks strike nobody:
/// the unit waits for its animation to end and then idles.
pub open spec fn attacking_spec(
    wm: WarMachine,
    state: Attacking,
    sheep: Seq<Point>,
    animation_finished: bool,
) -> Step {
    let here = wm.creature.position;
    let attack = wm.creature.attack;
    if !state.has_started {
        match nearest(here, sheep, attack.attack_range as int) {
            None => Step { state: CreatureState::Idling(Idling), action: Action::Nothing },
            Some(t) => Step {
                state: CreatureState::Attacking(Attacking { has_started: true }),
                action: Action::Strike {
                    target: t as usize,
                    damage: attack.attack_damage,
                    flip_x: faces_left(here, sheep[t]),
                },
            },
        }
    } else if animation_finished {
        Step { state: CreatureState::Idling(Idling), action: Action::Nothing }
    } else {
        Step { state: CreatureState::Attacking(state), action: Action::Nothing }
    }
}

/// A dying unit starts its last animation on the first tick and is removed
/// once that has ended.
pub open spec fn dying_spec(state: Dying, animation_finished: bool) -> Step {
    Step {
        state: CreatureState::Dying(Dying { has_started: true }),
        action: if state.has_started && animation_finished {
            Action::Remove
        } else {
            Action::Nothing
        },
    }
}

/// One step of a unit, by the state it is in.
pub open spec fn step_spec(wm: WarMachine, sheep: Seq<Point>, animation_finished: bool) -> Step {
    match wm.state {
        CreatureState::Idling(_) => idling_spec(wm, sheep),
        CreatureState::Walking(_) => walking_spec(wm, sheep),
        CreatureState::Attacking(a) => attacking_spec(wm, a, sheep, animation_finished),
        CreatureState::Dying(d) => dying_spec(d, animation_finished),
    }
}

/// The unit as it leaves a step: in the new state, and turned as the action
/// says.
pub open spec fn stepped(wm: WarMachine, step: Step) -> WarMachine {
    WarMachine {
        state: step.state,
        flip_x: match step.action {
            Action::Advance { flip_x, .. } => flip_x,
            Action::Strike { flip_x, .. } => flip_x,
            _ => wm.flip_x,
        },
        ..wm
    }
}

/// Where a war machine at `from` stands after it has advanced on `to` for
/// `delta` milliseconds: as far as its speed takes it, and no further than
/// the battlefield reaches.
pub open spec fn advanced_on_field(from: Point, to: Point, speed: int, delta: int) -> Point {
    let p = advanced(from, to, speed, delta);
    Point {
        x: clamped(p.x, BATTLEFIELD_BOUNDS_X.0, BATTLEFIELD_BOUNDS_X.1),
        y: clamped(p.y, BATTLEFIELD_BOUNDS_Y.0, BATTLEFIELD_BOUNDS_Y.1),
    }
}

/// The unit after its action has been carried out on it: an advance moves
/// it towards its target, any other action leaves it where it is.
pub open spec fn moved(wm: WarMachine, action: Action, sheep: Seq<Point>, delta: u32) -> WarMachine {
    match action {
        Action::Advance { target, .. } => if target < sheep.len() {
            WarMachine {
                creature: Creature {
                    position: advanced_on_field(
                        wm.creature.position,
                        sheep[target as int],
                        wm.creature.speed.0 as int,
                        delta as int,
                    ),
                    ..wm.creature
                },
                ..wm
            }
        } else {
            wm
        },
        _ => wm,
    }
}

/// A unit whose health is spent starts dying, unless it is dying already.
pub open spec fn dying_applied(wm: WarMachine) -> WarMachine {
    if wm.creature.health.is_depleted() && !(wm.state is Dying) {
        WarMachine { state: CreatureState::Dying(Dying { has_started: false }), ..wm }
    } else {
        wm
    }
}

fn turned_left(from: Point, to: Point) -> (r: bool)
    ensures
        r == faces_left(from, to),
{
    to.x <= from.x
}

/// The step of an idle unit.
pub fn idling(wm: &WarMachine, sheep: &Vec<Creature>) -> (step: Step)
    ensures
        step == idling_spec(*wm, positions_of(sheep@)),
{
    let spotted = nearest_within(wm.creature.position, sheep, wm.creature.attack.spotting_range);
    Step {
        state: if spotted.is_some() {
            CreatureState::Walking(Walking)
        } else {
            CreatureState::Idling(Idling)
        },
        action: Action::Nothing,
    }
}

/// The step of a walking unit.
pub fn walking(wm: &WarMachine, sheep: &Vec<Creature>) -> (step: Step)
    ensures
        step == walking_spec(*wm, positions_of(sheep@)),
{
    let here = wm.creature.position;
    let attack = wm.creature.attack;
    match nearest_within(here, sheep, attack.spotting_range) {
        None => Step { state: CreatureState::Idling(Idling), action: Action::Nothing },
        Some(t) => {
            let there = sheep[t].position;
            assert(there == positions_of(sheep@)[t as int]);
            if is_within(here, there, attack.attack_range) {
                Step {
                    state: CreatureState::Attacking(Attacking { has_started: false }),
                    action: Action::Nothing,
                }
            } else if is_beyond_half(here, there, attack.attack_range) {
                Step {
                    state: CreatureState::Walking(Walking),
                    action: match wm.behaviour {
                        BehaviourType::ChasingClosest => Action::Advance {
                            target: t,
                            flip_x: turned_left(here, there),
                        },
                    },
                }
            } else {
                Step { state: CreatureState::Walking(Walking), action: Action::Nothing }
            }
        },
    }
}

/// The step of an attacking unit.
pub fn attacking(wm: &WarMachine, state: Attacking, sheep: &Vec<Creature>, animation_finished: bool) -> (step: Step)
    ensures
        step == attacking_spec(*wm, state, positions_of(sheep@), animation_finished),
{
    let here = wm.creature.position;
    let attack = wm.creature.attack;
    if !state.has_started {
        match nearest_within(here, sheep, attack.attack_range) {
            None => Step { state: CreatureState::Idling(Idling), action: Action::Nothing },
            Some(t) => {
                let there = sheep[t].position;
                assert(there == positions_of(sheep@)[t as int]);
                Step {
                    state: CreatureState::Attacking(Attacking { has_started: true }),
                    action: Action::Strike {
                        target: t,
                        damage: attack.attack_damage,
                        flip_x: turned_left(here, there),
                    },
                }
            },
        }
    } else if animation_finished {
        Step { state: CreatureState::Idling(Idling), action: Action::Nothing }
    } else {
        Step { state: CreatureState::Attacking(state), action: Action::Nothing }
    }
}

/// The step of a dying unit.
pub fn dying(state: Dying, animation_finished: bool) -> (step: Step)
    ensures
        step == dying_spec(state, animation_finished),
{
    Step {
        state: CreatureState::Dying(Dying { has_started: true }),
        action: if state.has_started && animation_finished {
            Action::Remove
        } else {
            Action::Nothing
        },
    }
}

/// Makes a unit that has just entered the field: idle and looking to the
/// right.
pub fn new_war_machine(creature: Creature, behaviour: BehaviourType) -> (wm: WarMachine)
    ensures
        wm == (WarMachine { creature, behaviour, state: CreatureState::initial(), flip_x: false }),
{
    WarMachine { creature, behaviour, state: CreatureState::Idling(Idling), flip_x: false }
}

impl WarMachine {
    /// Decides this tick's step and leaves the unit unchanged.
    pub fn step(&self, sheep: &Vec<Creature>, animation_finished: bool) -> (step: Step)
        ensures
            step == step_spec(*self, positions_of(sheep@), animation_finished),
    {
        match self.state {
            CreatureState::Idling(_) => idling(self, sheep),
            CreatureState::Walking(_) => walking(self, sheep),
            CreatureState::Attacking(a) => attacking(self, a, sheep, animation_finished),
            CreatureState::Dying(d) => dying(d, animation_finished),
        }
    }

    /// Takes the unit through a step that was decided for it.
    pub fn apply(&mut self, step: Step)
        ensures
            *final(self) == stepped(*old(self), step),
    {
        self.state = step.state;
        match step.action {
            Action::Advance { target: _, flip_x } => {
                self.flip_x = flip_x;
            },
            Action::Strike { target: _, damage: _, flip_x } => {
                self.flip_x = flip_x;
            },
            _ => {},
        }
    }

    /// Moves the unit towards `target` for `delta` milliseconds, within the
    /// battlefield.
    pub fn advance_on(&mut self, target: Point, delta: u32)
        ensures
            *final(self) == (WarMachine {
                creature: Creature {
                    position: advanced_on_field(
                        old(self).creature.position,
                        target,
                        old(self).creature.speed.0 as int,
                        delta as int,
                    ),
                    ..old(self).creature
                },
                ..*old(self)
            }),
    {
        let bounds = Bounds { x: BATTLEFIELD_BOUNDS_X, y: BATTLEFIELD_BOUNDS_Y };
        let p = advance(self.creature.position, target, self.creature.speed.0, delta);
        self.creature.position = bounds_check(p, &bounds);
    }

    /// Sends the unit into its dying state if its health is spent.
    pub fn apply_dying(&mut self)
        ensures
            *final(self) == dying_applied(*old(self)),
    {
        let already = match self.state {
            CreatureState::Dying(_) => true,
            _ => false,
        };
        if self.creature.health.depleted() && !already {
            self.state = CreatureState::Dying(Dying { has_started: false });
        }
    }
}

} // verus!

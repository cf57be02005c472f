//! The behaviour states of a hostile unit.

use vstd::prelude::*;

verus! {

/// The unit stands and looks out for opponents.
#[derive(Clone, Copy, Debug, PartialEq, Eq, Structural)]
pub struct Idling;

/// The unit pursues an opponent it has spotted.
#[derive(Clone, Copy, Debug, PartialEq, Eq, Structural)]
pub struct Walking;

/// The unit strikes. `has_started` is false until the first tick in this
/// state has run: only that tick deals damage.
#[derive(Clone, Copy, Debug, PartialEq, Eq, Structural)]
pub struct Attacking {
    pub has_started: bool,
}

/// The unit's health is spent and its last animation plays.
#[derive(Clone, Copy, Debug, PartialEq, Eq, Structural)]
pub struct Dying {
    pub has_started: bool,
}

/// The one state a hostile unit is in.
#[derive(Clone, Copy, Debug, PartialEq, Eq, Structural)]
pub enum CreatureState {
    Idling(Idling),
    Walking(Walking),
    Attacking(Attacking),
    Dying(Dying),
}

impl Idling {
    pub fn animation() -> (name: &'static str)
        ensures
            name@ == "idling"@,
    {
        "idling"
    }
}

impl Walking {
    pub fn animation() -> (name: &'static str)
        ensures
            name@ == "walking"@,
    {
        "walking"
    }
}

impl Attacking {
    pub fn animation() -> (name: &'static str)
        ensures
            name@ == "attacking"@,
    {
        "attacking"
    }
}

impl Dying {
    pub fn animation() -> (name: &'static str)
        ensures
            name@ == "dying"@,
    {
        "dying"
    }
}

impl Default for Attacking {
    fn default() -> (a: Attacking)
        ensures
            a == (Attacking { has_started: false }),
    {
        Attacking { has_started: false }
    }
}

impl Default for Dying {
    fn default() -> (d: Dying)
        ensures
            d == (Dying { has_started: false }),
    {
        Dying { has_started: false }
    }
}

impl CreatureState {
    /// The state every hostile unit starts in.
    pub open spec fn initial() -> CreatureState {
        CreatureState::Idling(Idling)
    }

    /// The name of the animation that goes with the state.
    pub fn animation(&self) -> (name: &'static str)
        ensures
            name@ == match *self {
                CreatureState::Idling(_) => "idling"@,
                CreatureState::Walking(_) => "walking"@,
                CreatureState::Attacking(_) => "attacking"@,
                CreatureState::Dying(_) => "dying"@,
            },
    {
        match self {
            CreatureState::Idling(_) => Idling::animation(),
            CreatureState::Walking(_) => Walking::animation(),
            CreatureState::Attacking(_) => Attacking::animation(),
            CreatureState::Dying(_) => Dying::animation(),
        }
    }

    /// Whether a unit that begins a step in this state starts the state's
    /// animation, and if so whether the animation's timer repeats. Idling
    /// and walking start theirs, repeating, unless it plays already; an
    /// attack and a death start theirs, once, on their first tick.
    pub fn animation_cue(&self, playing: bool) -> (cue: Option<bool>)
        ensures
            cue == match *self {
                CreatureState::Idling(_) | CreatureState::Walking(_) => if playing {
                    None
                } else {
                    Some(true)
                },
                CreatureState::Attacking(a) => if a.has_started {
                    None
                } else {
                    Some(false)
                },
                CreatureState::Dying(d) => if d.has_started {
                    None
                } else {
                    Some(false)
                },
            },
    {
        match self {
            CreatureState::Idling(_) => if playing {
                None
            } else {
                Some(true)
            },
            CreatureState::Walking(_) => if playing {
                None
            } else {
                Some(true)
            },
            CreatureState::Attacking(a) => if a.has_started {
                None
            } else {
                Some(false)
            },
            CreatureState::Dying(d) => if d.has_started {
                None
            } else {
                Some(false)
            },
        }
    }

    /// Whether the animation of the state starts over when it ends.
    pub fn animation_repeats(&self) -> (r: bool)
        ensures
            r == !(*self is Dying),
    {
        match self {
            CreatureState::Dying(_) => false,
            _ => true,
        }
    }
}

} // verus!

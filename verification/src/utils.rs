//! The stats that every fighting unit carries, and the field's bounds.

use vstd::prelude::*;
use crate::geometry::{Point, Positioned};

verus! {

/// Distance covered per second, in thousandths of a world unit.
#[derive(Clone, Copy, Debug, PartialEq, Eq, Structural)]
pub struct Speed(pub i64);

/// Hit points, in thousandths. A unit is depleted once `current` is zero or
/// less.
#[derive(Clone, Copy, Debug, PartialEq, Eq, Structural)]
pub struct Health {
    pub current: i64,
    pub max: i64,
}

impl Health {
    /// No unit holds more health than its maximum.
    pub open spec fn wf(&self) -> bool {
        self.current <= self.max
    }

    pub open spec fn is_depleted(&self) -> bool {
        self.current <= 0
    }

    /// The health left after a hit of `damage`. The count stops at the
    /// lowest value an `i64` holds.
    pub open spec fn damaged(self, damage: u64) -> Health {
        Health {
            current: if self.current - damage < i64::MIN {
                i64::MIN
            } else {
                (self.current - damage) as i64
            },
            max: self.max,
        }
    }

    /// The part of the maximum that is left, in thousandths, between 0 and
    /// 1000 and rounded down.
    pub open spec fn fraction_spec(&self) -> int {
        if self.current <= 0 {
            0
        } else if self.current >= self.max {
            1000
        } else {
            self.current * 1000 / (self.max as int)
        }
    }

    /// Full health of `max`.
    pub fn new(max: i64) -> (h: Health)
        ensures
            h == (Health { current: max, max }),
            h.wf(),
    {
        Health { current: max, max }
    }

    pub fn depleted(&self) -> (r: bool)
        ensures
            r == self.is_depleted(),
    {
        self.current <= 0
    }

    /// Takes one hit.
    pub fn take_damage(&mut self, damage: u64)
        ensures
            *final(self) == old(self).damaged(damage),
            old(self).wf() ==> final(self).wf(),
    {
        let left: i128 = self.current as i128 - damage as i128;
        if left < i64::MIN as i128 {
            self.current = i64::MIN;
        } else {
            self.current = left as i64;
        }
    }

    /// The filling of a health bar.
    pub fn fraction(&self) -> (r: u32)
        ensures
            r == self.fraction_spec(),
            r <= 1000,
    {
        if self.current <= 0 {
            0
        } else if self.current >= self.max {
            1000
        } else {
            let scaled: i128 = self.current as i128 * 1000;
            let q: i128 = scaled / (self.max as i128);
            assert(0 <= q < 1000) by (nonlinear_arith)
                requires
                    q == (self.current * 1000) / (self.max as int),
                    0 < self.current < self.max,
            ;
            q as u32
        }
    }
}

/// How hard and how far a unit strikes, and how far it sees.
#[derive(Clone, Copy, Debug, PartialEq, Eq, Structural)]
pub struct Attack {
    pub attack_damage: u64,
    pub attack_range: i64,
    pub spotting_range: i64,
}

/// How a hostile unit picks whom to hunt.
#[derive(Clone, Copy, Debug, PartialEq, Eq, Structural)]
pub enum BehaviourType {
    /// The unit chases the closest opponent.
    ChasingClosest,
}

/// A unit that takes part in a battle.
#[derive(Clone, Copy, Debug, PartialEq, Eq, Structural)]
pub struct Creature {
    pub position: Point,
    pub health: Health,
    pub speed: Speed,
    pub attack: Attack,
}

impl Positioned for Creature {
    open spec fn position_spec(&self) -> Point {
        self.position
    }

    fn position(&self) -> (p: Point) {
        self.position
    }
}

/// The rectangle a unit may not leave: lowest and highest value per axis.
#[derive(Clone, Copy, Debug, PartialEq, Eq)]
pub struct Bounds {
    pub x: (i32, i32),
    pub y: (i32, i32),
}

/// One coordinate brought back between `low` and `high`: the upper limit is
/// tested first.
pub open spec fn clamped(v: i32, low: i32, high: i32) -> i32 {
    if v > high {
        high
    } else if v < low {
        low
    } else {
        v
    }
}

fn clamp_axis(v: i32, low: i32, high: i32) -> (r: i32)
    ensures
        r == clamped(v, low, high),
{
    if v > high {
        high
    } else if v < low {
        low
    } else {
        v
    }
}

/// Brings a position back inside the bounds, axis by axis.
pub fn bounds_check(position: Point, bounds: &Bounds) -> (p: Point)
    ensures
        p.x == clamped(position.x, bounds.x.0, bounds.x.1),
        p.y == clamped(position.y, bounds.y.0, bounds.y.1),
        bounds.x.0 <= bounds.x.1 ==> bounds.x.0 <= p.x <= bounds.x.1,
        bounds.y.0 <= bounds.y.1 ==> bounds.y.0 <= p.y <= bounds.y.1,
{
    Point {
        x: clamp_axis(position.x, bounds.x.0, bounds.x.1),
        y: clamp_axis(position.y, bounds.y.0, bounds.y.1),
    }
}

} // verus!

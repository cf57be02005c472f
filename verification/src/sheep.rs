//! The flock: what a sheep is made of, how two sheep become one, and how the
//! pen is filled.

use vstd::prelude::*;
use crate::battle::BattleTimer;
use crate::geometry::{advance, advanced, is_within, kept_on_plane, positions_of, within, Point, Positioned};
use crate::random::{random_between, random_flag};
use crate::targeting::{nearest, nearest_within};
use crate::utils::{Attack, Bounds, Creature, Health, Speed};

verus! {

/// The pen, lowest and highest coordinate per axis.
pub const PEN_BOUNDS_X: (i32, i32) = (-6200, 6200);

pub const PEN_BOUNDS_Y: (i32, i32) = (-6400, 7000);

/// The number of sheep a new game starts with.
pub const COUNT_INIT_SHEEP: usize = 10;

/// The health of a sheep per level.
pub const SHEEP_DEFAULT_HEALTH: i64 = 20000;

/// The base values that a sheep's attack grows from.
pub const SHEEP_DEFAULT_DAMAGE: u64 = 200;

pub const SHEEP_DEFAULT_RANGE: i32 = 1000;

pub const SHEEP_DEFAULT_SPOTTING: i32 = 100000;

/// The base value that a sheep's speed grows from.
pub const SHEEP_WANDER_SPEED: i32 = 1000;

/// The darkest colour a sheep can have.
pub const MIN_COLOR: u32 = 100;

/// The most that chance moves the colour of a lamb, either way.
pub const COLOR_JITTER: i32 = 100;

/// The levels a sheep has gathered, by kind.
#[derive(Clone, Copy, Debug, PartialEq, Eq, Structural)]
pub struct SheepLevels {
    pub base: usize,
    pub spear: usize,
    pub tank: usize,
    pub medic: usize,
}

impl Default for SheepLevels {
    fn default() -> (l: SheepLevels)
        ensures
            l == (SheepLevels { base: 1, spear: 0, tank: 0, medic: 0 }),
    {
        SheepLevels { base: 1, spear: 0, tank: 0, medic: 0 }
    }
}

impl SheepLevels {
    /// All levels together.
    pub open spec fn total(&self) -> nat {
        (self.base + self.spear + self.tank + self.medic) as nat
    }

    /// The levels of two sheep, added kind by kind.
    pub open spec fn sum(self, rhs: SheepLevels) -> (int, int, int, int) {
        (self.base + rhs.base, self.spear + rhs.spear, self.tank + rhs.tank, self.medic + rhs.medic)
    }

    /// Adds two sets of levels kind by kind.
    pub fn add(self, rhs: SheepLevels) -> (l: SheepLevels)
        requires
            self.total() + rhs.total() <= usize::MAX,
        ensures
            (l.base as int, l.spear as int, l.tank as int, l.medic as int) == self.sum(rhs),
            l.total() == self.total() + rhs.total(),
    {
        SheepLevels {
            base: self.base + rhs.base,
            spear: self.spear + rhs.spear,
            tank: self.tank + rhs.tank,
            medic: self.medic + rhs.medic,
        }
    }
}

/// What a sheep passes on when it breeds: its colour, in thousandths of full
/// brightness, and its levels.
#[derive(Clone, Copy, Debug, PartialEq, Eq, Structural)]
pub struct Sheep {
    pub color: u32,
    pub levels: SheepLevels,
}

/// `base` times `factor`, where `factor` counts thousandths: rounded down.
pub open spec fn scaled(base: int, factor: int) -> int {
    base * factor / 1000
}

fn scale(base: i32, factor: i64) -> (r: i64)
    requires
        0 <= base,
        -0x100_0000_0000 <= factor <= 0x100_0000_0000,
    ensures
        r == scaled(base as int, factor as int),
{
    let b: i128 = base as i128;
    let f: i128 = factor as i128;
    assert(-0x8000_0000 * 0x100_0000_0000 <= b * f <= 0x8000_0000 * 0x100_0000_0000) by (nonlinear_arith)
        requires
            0 <= b <= 0x8000_0000,
            -0x100_0000_0000 <= f <= 0x100_0000_0000,
    ;
    let p: i128 = b * f;
    if p >= 0 {
        (p / 1000) as i64
    } else {
        let m: i128 = -p;
        let c: i128 = (m + 999) / 1000;
        (-c) as i64
    }
}

/// The colour of a lamb: the mean of its parents' colours, moved by
/// `jitter`, and never darker than the darkest colour.
pub open spec fn combined_color(a: u32, b: u32, jitter: int) -> int {
    let mixed = (a + b) / 2 + jitter;
    if mixed < MIN_COLOR {
        MIN_COLOR as int
    } else {
        mixed
    }
}

impl Default for Sheep {
    fn default() -> (s: Sheep)
        ensures
            s == (Sheep { color: 0, levels: SheepLevels { base: 1, spear: 0, tank: 0, medic: 0 } }),
            s.wf(),
    {
        Sheep { color: 0, levels: SheepLevels { base: 1, spear: 0, tank: 0, medic: 0 } }
    }
}

impl Sheep {
    /// A sheep has at least one level, and the sum of its levels can be
    /// counted.
    pub open spec fn wf(&self) -> bool {
        1 <= self.levels.total() <= usize::MAX
    }

    /// Two sheep whose lamb can be counted: its levels fit, and so does its
    /// colour whatever chance adds.
    pub open spec fn can_combine(&self, other: &Sheep) -> bool {
        &&& self.wf()
        &&& other.wf()
        &&& self.levels.total() + other.levels.total() <= usize::MAX
        &&& (self.color + other.color) / 2 + COLOR_JITTER <= u32::MAX
    }

    /// The lamb of two sheep for a given move of its colour.
    pub open spec fn combined(&self, other: &Sheep, jitter: int) -> Sheep {
        Sheep {
            color: combined_color(self.color, other.color, jitter) as u32,
            levels: SheepLevels {
                base: (self.levels.base + other.levels.base) as usize,
                spear: (self.levels.spear + other.levels.spear) as usize,
                tank: (self.levels.tank + other.levels.tank) as usize,
                medic: (self.levels.medic + other.levels.medic) as usize,
            },
        }
    }

    /// The health of a sheep: the default health once per level.
    pub open spec fn health_spec(&self) -> int {
        SHEEP_DEFAULT_HEALTH * self.levels.total()
    }

    /// The damage of a sheep: half the default damage, once per level and
    /// once more.
    pub open spec fn damage_spec(&self) -> int {
        SHEEP_DEFAULT_DAMAGE * (self.levels.total() + 1) / 2
    }

    /// A sheep of the first level with the given colour.
    pub fn from_col(color: u32) -> (s: Sheep)
        ensures
            s == (Sheep { color, levels: SheepLevels { base: 1, spear: 0, tank: 0, medic: 0 } }),
            s.wf(),
    {
        Sheep { color, levels: SheepLevels { base: 1, spear: 0, tank: 0, medic: 0 } }
    }

    /// Breeds two sheep with a colour moved by `jitter`.
    pub fn combine_with(&self, other: &Sheep, jitter: i32) -> (lamb: Sheep)
        requires
            self.can_combine(other),
            -COLOR_JITTER <= jitter <= COLOR_JITTER,
        ensures
            lamb == self.combined(other, jitter as int),
            lamb.color == combined_color(self.color, other.color, jitter as int),
            lamb.color >= MIN_COLOR,
            (lamb.levels.base as int, lamb.levels.spear as int, lamb.levels.tank as int, lamb.levels.medic as int)
                == self.levels.sum(other.levels),
            lamb.levels.total() == self.levels.total() + other.levels.total(),
            lamb.wf(),
    {
        let mixed: i64 = (self.color as i64 + other.color as i64) / 2 + jitter as i64;
        let color: u32 = if mixed < MIN_COLOR as i64 {
            MIN_COLOR
        } else {
            mixed as u32
        };
        Sheep { color, levels: self.levels.add(other.levels) }
    }

    /// Breeds two sheep. The lamb has the levels of both, kind by kind. Its
    /// colour is the mean of theirs, moved by chance by at most the colour
    /// jitter either way.
    pub fn combine(&self, other: &Sheep) -> (lamb: Sheep)
        requires
            self.can_combine(other),
        ensures
            exists|jitter: int|
                -COLOR_JITTER <= jitter <= COLOR_JITTER && lamb == #[trigger] self.combined(other, jitter),
            (lamb.levels.base as int, lamb.levels.spear as int, lamb.levels.tank as int, lamb.levels.medic as int)
                == self.levels.sum(other.levels),
            lamb.levels.total() == self.levels.total() + other.levels.total(),
            lamb.color >= MIN_COLOR,
            lamb.wf(),
    {
        let jitter: i32 = random_between(-COLOR_JITTER, COLOR_JITTER);
        self.combine_with(other, jitter)
    }

    /// The sum of all levels.
    pub fn sum_levels(&self) -> (n: usize)
        requires
            self.levels.total() <= usize::MAX,
        ensures
            n == self.levels.total(),
    {
        self.levels.base + self.levels.spear + self.levels.tank + self.levels.medic
    }

    /// The health a sheep enters the field with.
    pub fn health_component(&self) -> (h: Health)
        requires
            self.wf(),
            self.health_spec() <= i64::MAX,
        ensures
            h.current == SHEEP_DEFAULT_HEALTH * self.levels.total(),
            h.max == h.current,
            h.wf(),
    {
        let n: usize = self.sum_levels();
        assert(SHEEP_DEFAULT_HEALTH * n <= i64::MAX);
        Health::new(SHEEP_DEFAULT_HEALTH * (n as i64))
    }

    /// The attack of a sheep. `log2_levels` is the binary logarithm of the
    /// sum of its levels, in thousandths. The damage grows with the levels;
    /// the attack range is the default range times the logarithm of half
    /// the levels plus a fifth; the spotting range is the default spotting
    /// range times the logarithm plus one.
    pub fn attack_component(&self, log2_levels: i32) -> (a: Attack)
        requires
            self.wf(),
            SHEEP_DEFAULT_DAMAGE * (self.levels.total() + 1) <= u64::MAX,
        ensures
            a.attack_damage == self.damage_spec(),
            a.attack_range == scaled(SHEEP_DEFAULT_RANGE as int, log2_levels - 1000 + 200),
            a.spotting_range == scaled(SHEEP_DEFAULT_SPOTTING as int, log2_levels + 1000),
    {
        let n: u64 = self.sum_levels() as u64;
        Attack {
            attack_damage: SHEEP_DEFAULT_DAMAGE * (n + 1) / 2,
            attack_range: scale(SHEEP_DEFAULT_RANGE, log2_levels as i64 - 1000 + 200),
            spotting_range: scale(SHEEP_DEFAULT_SPOTTING, log2_levels as i64 + 1000),
        }
    }

    /// The speed of a sheep: the wander speed times the binary logarithm of
    /// the sum of its levels, which `log2_levels` gives in thousandths, plus
    /// one.
    pub fn speed_component(&self, log2_levels: i32) -> (s: Speed)
        ensures
            s.0 == scaled(SHEEP_WANDER_SPEED as int, log2_levels as int) + 1000,
    {
        Speed(scale(SHEEP_WANDER_SPEED, log2_levels as i64) + 1000)
    }
}

/// A sheep in the pen.
#[derive(Clone, Copy, Debug, PartialEq, Eq, Structural)]
pub struct SheepUnit {
    pub position: Point,
    pub sheep: Sheep,
}

impl Positioned for SheepUnit {
    open spec fn position_spec(&self) -> Point {
        self.position
    }

    fn position(&self) -> (p: Point) {
        self.position
    }
}

/// Puts a sheep on the field at `position`: its health, speed and attack
/// are worked out from its levels there and then. `log2_levels` is the
/// binary logarithm of the sum of its levels, in thousandths.
pub fn spawn_sheep(position: Point, sheep: &Sheep, log2_levels: i32) -> (unit: Creature)
    requires
        sheep.wf(),
        sheep.health_spec() <= i64::MAX,
        SHEEP_DEFAULT_DAMAGE * (sheep.levels.total() + 1) <= u64::MAX,
    ensures
        unit.position == position,
        unit.health == (Health { current: sheep.health_spec() as i64, max: sheep.health_spec() as i64 }),
        unit.speed.0 == scaled(SHEEP_WANDER_SPEED as int, log2_levels as int) + 1000,
        unit.attack == (Attack {
            attack_damage: sheep.damage_spec() as u64,
            attack_range: scaled(SHEEP_DEFAULT_RANGE as int, log2_levels - 1000 + 200) as i64,
            spotting_range: scaled(SHEEP_DEFAULT_SPOTTING as int, log2_levels + 1000) as i64,
        }),
{
    Creature {
        position,
        health: sheep.health_component(),
        speed: sheep.speed_component(log2_levels),
        attack: sheep.attack_component(log2_levels),
    }
}

/// A point of the pen.
pub open spec fn in_pen(p: Point) -> bool {
    &&& PEN_BOUNDS_X.0 <= p.x <= PEN_BOUNDS_X.1
    &&& PEN_BOUNDS_Y.0 <= p.y <= PEN_BOUNDS_Y.1
}

/// The bounds that keep a sheep in the pen.
pub fn pen_bounds() -> (b: Bounds)
    ensures
        b.x == PEN_BOUNDS_X,
        b.y == PEN_BOUNDS_Y,
{
    Bounds { x: PEN_BOUNDS_X, y: PEN_BOUNDS_Y }
}

/// A sheep as it is put into the pen: of the first level, somewhere in the
/// pen, and either light or dark.
pub open spec fn is_fresh(unit: SheepUnit) -> bool {
    &&& in_pen(unit.position)
    &&& unit.sheep.levels == (SheepLevels { base: 1, spear: 0, tank: 0, medic: 0 })
    &&& (800 <= unit.sheep.color <= 1000 || 100 <= unit.sheep.color <= 300)
}

fn random_color() -> (color: u32)
    ensures
        800 <= color <= 1000 || 100 <= color <= 300,
{
    let roll: i32 = random_between(0, 1000);
    let color: i32 = if roll >= 200 {
        random_between(800, 1000)
    } else {
        random_between(100, 300)
    };
    color as u32
}

/// Makes `num_sheep` fresh sheep. Where each stands and which colour it has
/// is left to chance; light sheep are the more likely.
pub fn spawn_n_sheep(num_sheep: usize) -> (flock: Vec<SheepUnit>)
    ensures
        flock@.len() == num_sheep,
        forall|i: int| 0 <= i < flock@.len() ==> is_fresh(#[trigger] flock@[i]),
{
    let mut flock: Vec<SheepUnit> = Vec::new();
    let mut i: usize = 0;
    while i < num_sheep
        invariant
            0 <= i <= num_sheep,
            flock@.len() == i,
            forall|j: int| 0 <= j < flock@.len() ==> is_fresh(#[trigger] flock@[j]),
        decreases num_sheep - i,
    {
        let x: i32 = random_between(PEN_BOUNDS_X.0, PEN_BOUNDS_X.1);
        let y: i32 = random_between(PEN_BOUNDS_Y.0, PEN_BOUNDS_Y.1);
        let unit = SheepUnit { position: Point { x, y }, sheep: Sheep::from_col(random_color()) };
        flock.push(unit);
        i += 1;
    }
    flock
}

/// The sheep under the pointer: the nearest within `reach`, the earliest of
/// the equally near.
pub fn grab_sheep(pointer: Point, flock: &Vec<SheepUnit>, reach: i64) -> (grabbed: Option<usize>)
    ensures
        match grabbed {
            Some(i) => nearest(pointer, positions_of(flock@), reach as int) == Some(i as int),
            None => nearest(pointer, positions_of(flock@), reach as int) is None,
        },
{
    nearest_within(pointer, flock, reach)
}

/// `i` is the place of the first sheep, other than the dropped one, that
/// stands within `threshold` of where that one was dropped.
pub open spec fn is_partner(ps: Seq<Point>, dropped: int, threshold: int, i: int) -> bool {
    &&& 0 <= dropped < ps.len()
    &&& 0 <= i < ps.len()
    &&& i != dropped
    &&& within(ps[i], ps[dropped], threshold)
    &&& forall|j: int| 0 <= j < i && j != dropped ==> !within(#[trigger] ps[j], ps[dropped], threshold)
}

/// No sheep but the dropped one stands within `threshold` of it, or there
/// is no sheep at the place `dropped`.
pub open spec fn no_partner(ps: Seq<Point>, dropped: int, threshold: int) -> bool {
    0 <= dropped < ps.len() ==> forall|j: int|
        0 <= j < ps.len() && j != dropped ==> !within(#[trigger] ps[j], ps[dropped], threshold)
}

/// Finds the sheep that a dropped sheep has landed on.
pub fn find_partner(flock: &Vec<SheepUnit>, dropped: usize, threshold: i64) -> (partner: Option<usize>)
    ensures
        match partner {
            Some(i) => is_partner(positions_of(flock@), dropped as int, threshold as int, i as int),
            None => no_partner(positions_of(flock@), dropped as int, threshold as int),
        },
{
    if dropped >= flock.len() {
        return None;
    }
    let here = flock[dropped].position;
    let ghost ps = positions_of(flock@);
    let mut i: usize = 0;
    while i < flock.len()
        invariant
            0 <= i <= flock.len(),
            dropped < flock@.len(),
            ps == positions_of(flock@),
            here == ps[dropped as int],
            forall|j: int| 0 <= j < i && j != dropped ==> !within(#[trigger] ps[j], here, threshold as int),
        decreases flock.len() - i,
    {
        if i != dropped && is_within(flock[i].position, here, threshold) {
            assert(flock@[i as int].position == ps[i as int]);
            return Some(i);
        }
        assert(flock@[i as int].position == ps[i as int]);
        i += 1;
    }
    None
}

/// The flock after the sheep at `dropped` and at `partner` have become
/// `lamb`: both are gone, the others keep their order, and the lamb comes
/// last.
pub open spec fn bred(flock: Seq<SheepUnit>, dropped: int, partner: int, lamb: SheepUnit) -> Seq<SheepUnit> {
    let (low, high) = if dropped < partner {
        (dropped, partner)
    } else {
        (partner, dropped)
    };
    flock.remove(high).remove(low).push(lamb)
}

/// Every two sheep of the flock can breed.
pub open spec fn flock_can_breed(flock: Seq<SheepUnit>) -> bool {
    forall|i: int, j: int|
        0 <= i < flock.len() && 0 <= j < flock.len() ==> (#[trigger] flock[i]).sheep.can_combine(
            &(#[trigger] flock[j]).sheep,
        )
}

/// Called when the sheep at `dropped` has been let go; where there is no
/// such sheep, nothing happens. If it has landed on
/// another sheep, the first that stands within `threshold` of it, the two
/// become one lamb, which stands where that other sheep stood. Returns the
/// place the partner had, if there was one.
pub fn drop_sheep(flock: &mut Vec<SheepUnit>, dropped: usize, threshold: i64) -> (partner: Option<usize>)
    requires
        flock_can_breed(old(flock)@),
    ensures
        match partner {
            None => {
                &&& no_partner(positions_of(old(flock)@), dropped as int, threshold as int)
                &&& final(flock)@ == old(flock)@
            },
            Some(p) => {
                &&& is_partner(positions_of(old(flock)@), dropped as int, threshold as int, p as int)
                &&& final(flock)@.len() == old(flock)@.len() - 1
                &&& final(flock)@ == bred(old(flock)@, dropped as int, p as int, final(flock)@.last())
                &&& final(flock)@.last().position == old(flock)@[p as int].position
                &&& exists|jitter: int|
                    -COLOR_JITTER <= jitter <= COLOR_JITTER && final(flock)@.last().sheep
                        == #[trigger] old(flock)@[dropped as int].sheep.combined(
                        &old(flock)@[p as int].sheep,
                        jitter,
                    )
            },
        },
{
    match find_partner(flock, dropped, threshold) {
        None => None,
        Some(p) => {
            let first = flock[dropped];
            let second = flock[p];
            let lamb = SheepUnit { position: second.position, sheep: first.sheep.combine(&second.sheep) };
            if dropped < p {
                flock.remove(p);
                flock.remove(dropped);
            } else {
                flock.remove(dropped);
                flock.remove(p);
            }
            flock.push(lamb);
            Some(p)
        },
    }
}

/// What a sheep in the pen is up to.
#[derive(Clone, Copy, Debug, PartialEq, Eq, Structural)]
pub enum WanderState {
    Wandering,
    Idling,
}

/// The stroll of a sheep: it walks for a while in one direction, rests for
/// a while, and starts over in another direction.
#[derive(Clone, Copy, Debug, PartialEq, Eq, Structural)]
pub struct Wander {
    /// The usual length of a walk, in milliseconds.
    pub wander_time: u32,
    /// The usual length of a rest, in milliseconds.
    pub idle_time: u32,
    /// The most that chance changes either length, in thousandths of it.
    pub time_deviance: i32,
    pub state: WanderState,
    /// The clock of the walk or rest that is on.
    pub timer: BattleTimer,
    /// The direction of the walk: only where it points counts, not how
    /// long it is.
    pub heading: Point,
}

/// The other kind of phase.
pub open spec fn turned(state: WanderState) -> WanderState {
    match state {
        WanderState::Wandering => WanderState::Idling,
        WanderState::Idling => WanderState::Wandering,
    }
}

/// The length of a phase whose usual length `base` chance has changed by
/// `jitter` thousandths.
pub open spec fn phase_length(base: u32, jitter: int) -> int {
    base * (1000 + jitter) / 1000
}

/// A direction a sheep can take.
pub open spec fn is_heading(p: Point) -> bool {
    -1000 <= p.x <= 1000 && -1000 <= p.y <= 1000
}

/// The point that a sheep at `position` walks towards on its heading.
pub open spec fn ahead(position: Point, heading: Point) -> Point {
    Point { x: kept_on_plane(position.x + heading.x), y: kept_on_plane(position.y + heading.y) }
}

impl Wander {
    /// The lengths of a stroll can change by no more than their whole, and
    /// its clock is sound.
    pub open spec fn wf(&self) -> bool {
        &&& 0 <= self.time_deviance <= 1000
        &&& self.timer.wf()
    }

    /// The usual length of the phase that is on.
    pub open spec fn base_time(&self) -> u32 {
        match self.state {
            WanderState::Wandering => self.wander_time,
            WanderState::Idling => self.idle_time,
        }
    }

    /// A stroll that has just begun a phase: its clock is fresh and set to
    /// the usual length of the phase changed by chance within the deviance,
    /// and its heading is some direction.
    pub open spec fn begins(&self) -> bool {
        &&& is_heading(self.heading)
        &&& exists|jitter: int|
            -self.time_deviance <= jitter <= self.time_deviance && self.timer == BattleTimer::fresh(
                #[trigger] phase_length(self.base_time(), jitter) as u64,
            )
    }

    /// Begins a stroll in the given phase. How long the phase lasts and
    /// where the sheep heads is left to chance.
    pub fn new(wander_time: u32, idle_time: u32, time_deviance: i32, state: WanderState) -> (w: Wander)
        requires
            0 <= time_deviance <= 1000,
        ensures
            w.wander_time == wander_time,
            w.idle_time == idle_time,
            w.time_deviance == time_deviance,
            w.state == state,
            w.begins(),
            w.wf(),
    {
        let base: u32 = match state {
            WanderState::Wandering => wander_time,
            WanderState::Idling => idle_time,
        };
        let jitter: i32 = random_between(-time_deviance, time_deviance);
        let factor: u64 = (1000 + jitter) as u64;
        assert(base * factor <= 0xFFFF_FFFF * 2000) by (nonlinear_arith)
            requires
                0 <= base <= 0xFFFF_FFFF,
                0 <= factor <= 2000,
        ;
        let length: u64 = (base as u64) * factor / 1000;
        let x: i32 = random_between(-1000, 1000);
        let y: i32 = random_between(-1000, 1000);
        let w = Wander {
            wander_time,
            idle_time,
            time_deviance,
            state,
            timer: BattleTimer::new(length),
            heading: Point { x, y },
        };
        assert(w.timer == BattleTimer::fresh(phase_length(w.base_time(), jitter as int) as u64));
        w
    }
}

/// Begins the stroll of a sheep that has just been put into the pen: it
/// walks or rests, as chance has it.
pub fn first_stroll(wander_time: u32, idle_time: u32, time_deviance: i32) -> (w: Wander)
    requires
        0 <= time_deviance <= 1000,
    ensures
        w.wander_time == wander_time,
        w.idle_time == idle_time,
        w.time_deviance == time_deviance,
        w.begins(),
        w.wf(),
{
    let state = if random_flag() {
        WanderState::Wandering
    } else {
        WanderState::Idling
    };
    Wander::new(wander_time, idle_time, time_deviance, state)
}

/// One tick of a stroll. The clock of the phase advances; when it has just
/// run out, the other phase begins. A sheep that is walking then moves on
/// its heading at its speed. Returns where the sheep stands after the tick.
pub fn wander(stroll: &mut Wander, position: Point, speed: i64, delta: u32) -> (p: Point)
    requires
        old(stroll).wf(),
    ensures
        final(stroll).wf(),
        final(stroll).wander_time == old(stroll).wander_time,
        final(stroll).idle_time == old(stroll).idle_time,
        final(stroll).time_deviance == old(stroll).time_deviance,
        old(stroll).timer.ticked(delta as u64).just_finished ==> final(stroll).state == turned(
            old(stroll).state,
        ) && final(stroll).begins(),
        !old(stroll).timer.ticked(delta as u64).just_finished ==> *final(stroll) == (Wander {
            timer: old(stroll).timer.ticked(delta as u64),
            ..*old(stroll)
        }),
        p == if final(stroll).state == WanderState::Wandering {
            advanced(position, ahead(position, final(stroll).heading), speed as int, delta as int)
        } else {
            position
        },
{
    stroll.timer.tick(delta as u64);
    if stroll.timer.just_finished {
        let next = match stroll.state {
            WanderState::Wandering => WanderState::Idling,
            WanderState::Idling => WanderState::Wandering,
        };
        *stroll = Wander::new(stroll.wander_time, stroll.idle_time, stroll.time_deviance, next);
    }
    match stroll.state {
        WanderState::Wandering => {
            let to = Point {
                x: shifted(position.x, stroll.heading.x),
                y: shifted(position.y, stroll.heading.y),
            };
            advance(position, to, speed, delta)
        },
        WanderState::Idling => position,
    }
}

fn shifted(v: i32, by: i32) -> (r: i32)
    ensures
        r == kept_on_plane(v + by),
{
    let sum: i64 = v as i64 + by as i64;
    if sum > i32::MAX as i64 {
        i32::MAX
    } else if sum < i32::MIN as i64 {
        i32::MIN
    } else {
        sum as i32
    }
}

} // verus!

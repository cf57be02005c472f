//! Points of the field and exact distance comparisons on them.

use vstd::prelude::*;

verus! {

/// A position on the field, each coordinate in thousandths of a world unit.
#[derive(Clone, Copy, Debug, PartialEq, Eq, Structural)]
pub struct Point {
    pub x: i32,
    pub y: i32,
}

/// Anything that stands somewhere on the field.
pub trait Positioned {
    spec fn position_spec(&self) -> Point;

    fn position(&self) -> (p: Point)
        ensures
            p == self.position_spec(),
    ;
}

impl Positioned for Point {
    open spec fn position_spec(&self) -> Point {
        *self
    }

    fn position(&self) -> (p: Point) {
        *self
    }
}

/// The positions of a sequence of items, in the same order.
pub open spec fn positions_of<T: Positioned>(items: Seq<T>) -> Seq<Point> {
    Seq::new(items.len(), |i: int| items[i].position_spec())
}

/// The square of the Euclidean distance between two points.
pub open spec fn dist_sq(a: Point, b: Point) -> int {
    (a.x - b.x) * (a.x - b.x) + (a.y - b.y) * (a.y - b.y)
}

/// `b` lies at most `range` away from `a`. Nothing lies within a negative
/// range.
pub open spec fn within(a: Point, b: Point, range: int) -> bool {
    range >= 0 && dist_sq(a, b) <= range * range
}

/// `b` lies at least half of `range` away from `a`.
pub open spec fn beyond_half(a: Point, b: Point, range: int) -> bool {
    range < 0 || 4 * dist_sq(a, b) >= range * range
}

/// Whoever is out of a range is also beyond half of it.
pub proof fn lemma_out_of_range_is_beyond_half(a: Point, b: Point, range: int)
    requires
        !within(a, b, range),
    ensures
        beyond_half(a, b, range),
{
    assert(range * range >= 0) by (nonlinear_arith);
}

fn square(v: i64) -> (s: u128)
    requires
        -0x1_0000_0000 < v < 0x1_0000_0000,
    ensures
        s == v * v,
        s <= 0xFFFF_FFFF_0000_0000,
{
    let m: u128 = if v < 0 {
        (-v) as u128
    } else {
        v as u128
    };
    assert(m * m == v * v) by (nonlinear_arith)
        requires
            m == v || m == -v,
    ;
    assert(m * m <= 0xFFFF_FFFF * 0x1_0000_0000) by (nonlinear_arith)
        requires
            0 <= m <= 0xFFFF_FFFF,
    ;
    m * m
}

/// The exact squared distance between two points.
pub fn distance_squared(a: Point, b: Point) -> (d: u128)
    ensures
        d == dist_sq(a, b),
        d <= 0x1_FFFF_FFFE_0000_0000,
{
    let dx: i64 = a.x as i64 - b.x as i64;
    let dy: i64 = a.y as i64 - b.y as i64;
    square(dx) + square(dy)
}

fn range_squared(range: i64) -> (s: u128)
    requires
        range >= 0,
    ensures
        s == range * range,
{
    let r: u128 = range as u128;
    assert(r * r <= 0x8000_0000_0000_0000 * 0x8000_0000_0000_0000) by (nonlinear_arith)
        requires
            0 <= r <= 0x8000_0000_0000_0000,
    ;
    r * r
}

/// Decides `within` without rounding.
pub fn is_within(a: Point, b: Point, range: i64) -> (r: bool)
    ensures
        r == within(a, b, range as int),
{
    range >= 0 && distance_squared(a, b) <= range_squared(range)
}

/// Decides `beyond_half` without rounding.
pub fn is_beyond_half(a: Point, b: Point, range: i64) -> (r: bool)
    ensures
        r == beyond_half(a, b, range as int),
{
    range < 0 || 4 * distance_squared(a, b) >= range_squared(range)
}

/// `r` is the whole part of the square root of `n`.
pub open spec fn is_sqrt(n: int, r: int) -> bool {
    r >= 0 && r * r <= n < (r + 1) * (r + 1)
}

/// The whole part of the square root of `n`.
pub open spec fn sqrt_floor(n: int) -> int {
    choose|r: int| is_sqrt(n, r)
}

/// A number has at most one whole square root.
pub proof fn lemma_sqrt_unique(n: int, a: int, b: int)
    requires
        is_sqrt(n, a),
        is_sqrt(n, b),
    ensures
        a == b,
{
    if a < b {
        assert((a + 1) * (a + 1) <= b * b) by (nonlinear_arith)
            requires
                0 <= a + 1 <= b,
        ;
    } else if b < a {
        assert((b + 1) * (b + 1) <= a * a) by (nonlinear_arith)
            requires
                0 <= b + 1 <= a,
        ;
    }
}

/// Computes the whole part of a square root.
pub fn integer_sqrt(n: u128) -> (r: u64)
    ensures
        is_sqrt(n as int, r as int),
        r == sqrt_floor(n as int),
{
    let mut low: u128 = 0;
    let mut high: u128 = 0x1_0000_0000_0000_0000;
    assert(0x1_0000_0000_0000_0000 * 0x1_0000_0000_0000_0000 > u128::MAX) by (nonlinear_arith);
    while high - low > 1
        invariant
            low < high <= 0x1_0000_0000_0000_0000,
            low * low <= n < high * high,
        decreases high - low,
    {
        let mid: u128 = low + (high - low) / 2;
        assert(mid * mid <= 0xFFFF_FFFF_FFFF_FFFF * 0xFFFF_FFFF_FFFF_FFFF) by (nonlinear_arith)
            requires
                0 <= mid <= 0xFFFF_FFFF_FFFF_FFFF,
        ;
        if mid * mid <= n {
            low = mid;
        } else {
            high = mid;
        }
    }
    proof {
        let c = sqrt_floor(n as int);
        assert(is_sqrt(n as int, low as int));
        lemma_sqrt_unique(n as int, low as int, c);
    }
    low as u64
}

/// The size of a number without its sign.
pub open spec fn magnitude(v: int) -> int {
    if v < 0 {
        -v
    } else {
        v
    }
}

/// The way that a unit of speed `speed`, in thousandths of a world unit per
/// second, covers in `delta` milliseconds: rounded down to whole
/// thousandths.
pub open spec fn reach(speed: int, delta: int) -> int {
    magnitude(speed) * delta / 1000
}

/// One coordinate of a move of length `reach` along a difference whose
/// length is `len`: the part `component` of it, rounded towards zero. A
/// negative speed moves the other way.
pub open spec fn displacement(component: int, speed: int, delta: int, len: int) -> int {
    let m = magnitude(component) * reach(speed, delta) / len;
    if (component < 0) != (speed < 0) {
        -m
    } else {
        m
    }
}

/// A coordinate kept within what a point can hold.
pub open spec fn kept_on_plane(v: int) -> i32 {
    if v > i32::MAX {
        i32::MAX
    } else if v < i32::MIN {
        i32::MIN
    } else {
        v as i32
    }
}

/// Where a unit at `from` stands after it has moved towards `to` for
/// `delta` milliseconds at `speed`. The length of the difference counts in
/// whole thousandths; a unit less than one thousandth from its target stays
/// where it is.
pub open spec fn advanced(from: Point, to: Point, speed: int, delta: int) -> Point {
    let len = sqrt_floor(dist_sq(from, to));
    if len == 0 {
        from
    } else {
        Point {
            x: kept_on_plane(from.x + displacement(to.x - from.x, speed, delta, len)),
            y: kept_on_plane(from.y + displacement(to.y - from.y, speed, delta, len)),
        }
    }
}

fn moved_coordinate(from: i32, to: i32, speed: i64, delta: u32, len: u64) -> (r: i32)
    requires
        0 < len,
    ensures
        r == kept_on_plane(from + displacement(to - from, speed as int, delta as int, len as int)),
{
    let component: i64 = to as i64 - from as i64;
    let c: u128 = if component < 0 {
        (-component) as u128
    } else {
        component as u128
    };
    let s: u128 = if speed < 0 {
        (-(speed as i128)) as u128
    } else {
        speed as u128
    };
    assert(s * delta <= 0x8000_0000_0000_0000 * 0xFFFF_FFFF) by (nonlinear_arith)
        requires
            0 <= s <= 0x8000_0000_0000_0000,
            0 <= delta <= 0xFFFF_FFFF,
    ;
    let way: u128 = s * (delta as u128) / 1000;
    assert(way == reach(speed as int, delta as int));
    assert(c * way <= 0xFFFF_FFFF * (0x8000_0000_0000_0000 * 0xFFFF_FFFF)) by (nonlinear_arith)
        requires
            0 <= c <= 0xFFFF_FFFF,
            0 <= way <= 0x8000_0000_0000_0000 * 0xFFFF_FFFF,
    ;
    let m: u128 = c * way / (len as u128);
    assert(m <= c * way) by (nonlinear_arith)
        requires
            m == (c * way) / (len as int),
            len > 0,
            c * way >= 0,
    ;
    let d: i128 = if (component < 0) != (speed < 0) {
        -(m as i128)
    } else {
        m as i128
    };
    let v: i128 = from as i128 + d;
    if v > i32::MAX as i128 {
        i32::MAX
    } else if v < i32::MIN as i128 {
        i32::MIN
    } else {
        v as i32
    }
}

/// Moves a unit at `from` towards `to` for `delta` milliseconds at `speed`.
pub fn advance(from: Point, to: Point, speed: i64, delta: u32) -> (p: Point)
    ensures
        p == advanced(from, to, speed as int, delta as int),
{
    let len: u64 = integer_sqrt(distance_squared(from, to));
    if len == 0 {
        from
    } else {
        Point {
            x: moved_coordinate(from.x, to.x, speed, delta, len),
            y: moved_coordinate(from.y, to.y, speed, delta, len),
        }
    }
}

} // verus!

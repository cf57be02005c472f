//! Choice of the nearest opponent within a range.

use vstd::prelude::*;
use crate::geometry::{dist_sq, distance_squared, is_within, positions_of, within, Point, Positioned};

verus! {

/// `i` is the place of the first among the nearest points of `ps`, and that
/// point is within `range` of `origin`.
pub open spec fn is_nearest(origin: Point, ps: Seq<Point>, range: int, i: int) -> bool {
    &&& 0 <= i < ps.len()
    &&& within(origin, ps[i], range)
    &&& forall|j: int| 0 <= j < ps.len() ==> dist_sq(origin, ps[i]) <= dist_sq(origin, #[trigger] ps[j])
    &&& forall|j: int| 0 <= j < i ==> dist_sq(origin, ps[i]) < dist_sq(origin, #[trigger] ps[j])
}

/// The place of the target that a unit at `origin` picks among `ps`: the
/// nearest point within `range`, the earliest of them where several are
/// equally near; `None` where no point is within `range`.
pub open spec fn nearest(origin: Point, ps: Seq<Point>, range: int) -> Option<int> {
    if exists|i: int| is_nearest(origin, ps, range, i) {
        Some(choose|i: int| is_nearest(origin, ps, range, i))
    } else {
        None
    }
}

/// Some point of `ps` is within `range` of `origin`.
pub open spec fn any_within(origin: Point, ps: Seq<Point>, range: int) -> bool {
    exists|j: int| 0 <= j < ps.len() && within(origin, #[trigger] ps[j], range)
}

/// At most one place is the nearest.
pub proof fn lemma_nearest_unique(origin: Point, ps: Seq<Point>, range: int, i: int, k: int)
    requires
        is_nearest(origin, ps, range, i),
        is_nearest(origin, ps, range, k),
    ensures
        i == k,
{
    if i < k {
        assert(dist_sq(origin, ps[k]) < dist_sq(origin, ps[i]));
        assert(dist_sq(origin, ps[i]) <= dist_sq(origin, ps[k]));
    } else if k < i {
        assert(dist_sq(origin, ps[i]) < dist_sq(origin, ps[k]));
        assert(dist_sq(origin, ps[k]) <= dist_sq(origin, ps[i]));
    }
}

/// A target is picked exactly when some point is within range; the picked
/// point is within range, and no point of `ps` is nearer.
pub proof fn lemma_nearest_properties(origin: Point, ps: Seq<Point>, range: int)
    ensures
        nearest(origin, ps, range) is Some <==> any_within(origin, ps, range),
        nearest(origin, ps, range) matches Some(i) ==> is_nearest(origin, ps, range, i),
    decreases ps.len(),
{
    if any_within(origin, ps, range) {
        let j = choose|j: int| 0 <= j < ps.len() && within(origin, #[trigger] ps[j], range);
        let i = lemma_first_minimum(origin, ps);
        assert(dist_sq(origin, ps[i]) <= dist_sq(origin, ps[j]));
        assert(is_nearest(origin, ps, range, i));
    }
}

/// Every non-empty sequence has a first point of least distance.
proof fn lemma_first_minimum(origin: Point, ps: Seq<Point>) -> (i: int)
    requires
        ps.len() > 0,
    ensures
        0 <= i < ps.len(),
        forall|j: int| 0 <= j < ps.len() ==> dist_sq(origin, ps[i]) <= dist_sq(origin, #[trigger] ps[j]),
        forall|j: int| 0 <= j < i ==> dist_sq(origin, ps[i]) < dist_sq(origin, #[trigger] ps[j]),
    decreases ps.len(),
{
    if ps.len() == 1 {
        0
    } else {
        let last = ps.len() - 1;
        let front = ps.drop_last();
        let k = lemma_first_minimum(origin, front);
        assert(forall|j: int| 0 <= j < front.len() ==> front[j] == ps[j]);
        if dist_sq(origin, ps[last]) < dist_sq(origin, ps[k]) {
            assert forall|j: int| 0 <= j < last implies dist_sq(origin, ps[last]) < dist_sq(
                origin,
                #[trigger] ps[j],
            ) by {
                assert(dist_sq(origin, front[k]) <= dist_sq(origin, front[j]));
            }
            last
        } else {
            assert forall|j: int| 0 <= j < ps.len() implies dist_sq(origin, ps[k]) <= dist_sq(
                origin,
                #[trigger] ps[j],
            ) by {
                if j < last {
                    assert(dist_sq(origin, front[k]) <= dist_sq(origin, front[j]));
                }
            }
            assert forall|j: int| 0 <= j < k implies dist_sq(origin, ps[k]) < dist_sq(
                origin,
                #[trigger] ps[j],
            ) by {
                assert(dist_sq(origin, front[k]) < dist_sq(origin, front[j]));
            }
            k
        }
    }
}

/// Picks the target of a unit at `origin` among `items`: the place of the
/// nearest item within `range`, the earliest of the equally near.
pub fn nearest_within<T: Positioned>(origin: Point, items: &Vec<T>, range: i64) -> (r: Option<usize>)
    ensures
        match r {
            Some(i) => nearest(origin, positions_of(items@), range as int) == Some(i as int),
            None => nearest(origin, positions_of(items@), range as int) is None,
        },
        r matches Some(i) ==> is_nearest(origin, positions_of(items@), range as int, i as int),
        r is Some <==> any_within(origin, positions_of(items@), range as int),
{
    let ghost ps = positions_of(items@);
    proof {
        lemma_nearest_properties(origin, ps, range as int);
    }
    if items.len() == 0 {
        return None;
    }
    let mut best: usize = 0;
    let mut best_d: u128 = distance_squared(origin, items[0].position());
    let mut i: usize = 1;
    while i < items.len()
        invariant
            ps == positions_of(items@),
            1 <= i <= items.len(),
            0 <= best < i,
            best_d == dist_sq(origin, ps[best as int]),
            forall|j: int| 0 <= j < i ==> best_d <= dist_sq(origin, #[trigger] ps[j]),
            forall|j: int| 0 <= j < best ==> best_d < dist_sq(origin, #[trigger] ps[j]),
        decreases items.len() - i,
    {
        let d: u128 = distance_squared(origin, items[i].position());
        assert(d == dist_sq(origin, ps[i as int]));
        if d < best_d {
            best = i;
            best_d = d;
        }
        i += 1;
    }
    if is_within(origin, items[best].position(), range) {
        assert(is_nearest(origin, ps, range as int, best as int));
        proof {
            let c = nearest(origin, ps, range as int).unwrap();
            lemma_nearest_unique(origin, ps, range as int, best as int, c);
        }
        Some(best)
    } else {
        assert forall|j: int| 0 <= j < ps.len() implies !within(origin, #[trigger] ps[j], range as int) by {
            assert(best_d <= dist_sq(origin, ps[j]));
        }
        None
    }
}

/// One candidate for targeting: who it is and where it stands.
#[derive(Clone, Copy, Debug, PartialEq, Eq, Structural)]
pub struct Candidate {
    pub id: u64,
    pub position: Point,
}

impl Positioned for Candidate {
    open spec fn position_spec(&self) -> Point {
        self.position
    }

    fn position(&self) -> (p: Point) {
        self.position
    }
}

/// The target that `select_target` names.
pub open spec fn selected_id(origin: Point, candidates: Seq<Candidate>, range: int) -> Option<u64> {
    match nearest(origin, positions_of(candidates), range) {
        Some(i) => Some(candidates[i].id),
        None => None,
    }
}

/// Names the nearest candidate within `spotting_range` of `origin`, the
/// earliest of the equally near, or nobody where none is that close.
pub fn select_target(origin: Point, candidates: &Vec<Candidate>, spotting_range: i64) -> (r: Option<u64>)
    ensures
        r == selected_id(origin, candidates@, spotting_range as int),
        r is Some <==> any_within(origin, positions_of(candidates@), spotting_range as int),
        r matches Some(id) ==> exists|i: int|
            is_nearest(origin, positions_of(candidates@), spotting_range as int, i)
                && (#[trigger] candidates@[i]).id == id,
{
    match nearest_within(origin, candidates, spotting_range) {
        Some(i) => Some(candidates[i].id),
        None => None,
    }
}

} // verus!

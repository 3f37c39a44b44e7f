//! Nearest-point search: an exhaustive comparison of the squared planar
//! distance from the query coordinate to every vertex of every shape.
//!
//! The outcome is tagged. A vertex that coincides with the query is an
//! intersection; an empty collection yields no point at all; otherwise the
//! result is the single vertex nearest the query — on a tie, the earliest
//! such vertex in shape order.

use vstd::prelude::*;

use crate::coordinate::{spec_sq_dist, sq_dist, Coordinate};
use crate::geometry::GeometryCollection;

verus! {

/// The tagged outcome of the nearest-point search.
#[derive(Clone, Copy, PartialEq, Eq, Structural, Debug)]
pub enum Closest {
    /// The single vertex nearest the query.
    SinglePoint(Coordinate),
    /// The query coordinate lies exactly on a vertex.
    Intersection(Coordinate),
    /// The collection holds no vertex at all.
    Empty,
}

/// `p` is no farther from `q` than any vertex in `vs`.
pub open spec fn is_nearest(vs: Seq<Coordinate>, q: Coordinate, p: Coordinate) -> bool {
    forall|j: int|
        0 <= j < vs.len() ==> spec_sq_dist(p, q) <= spec_sq_dist(#[trigger] vs[j], q)
}

/// The vertex at index `i` is nearest the query, and every earlier vertex
/// is strictly farther: `i` is the first index attaining the minimum.
pub open spec fn first_nearest_at(vs: Seq<Coordinate>, q: Coordinate, i: int) -> bool {
    &&& 0 <= i < vs.len()
    &&& is_nearest(vs, q, vs[i])
    &&& forall|j: int|
        0 <= j < i ==> spec_sq_dist(#[trigger] vs[j], q) > spec_sq_dist(vs[i], q)
}

/// What the search promises of its outcome `r`, over the flattened vertex
/// sequence `vs` and the query `q`:
/// - no vertices at all if and only if the outcome is `Empty`;
/// - a vertex coincides with the query if and only if the outcome is
///   `Intersection` carrying the query itself;
/// - otherwise the outcome is the first vertex attaining the minimum
///   squared planar distance to the query, at a strictly positive
///   distance.
pub open spec fn closest_outcome_ok(vs: Seq<Coordinate>, q: Coordinate, r: Closest) -> bool {
    &&& (match r {
        Closest::Empty => vs.len() == 0,
        Closest::Intersection(p) => p == q && vs.contains(q),
        Closest::SinglePoint(p) => {
            &&& !vs.contains(q)
            &&& spec_sq_dist(p, q) > 0
            &&& exists|i: int| #[trigger] first_nearest_at(vs, q, i) && vs[i] == p
        },
    })
    &&& (vs.len() == 0 ==> r == Closest::Empty)
    &&& (vs.contains(q) ==> r == Closest::Intersection(q))
}

impl GeometryCollection {
    /// Finds the vertex of the collection nearest the query coordinate,
    /// by exhaustive comparison of squared planar distances.
    pub fn closest_point(&self, query: &Coordinate) -> (r: Closest)
        requires
            self.wf(),
            query.wf(),
        ensures
            closest_outcome_ok(self.all_vertices(), *query, r),
    {
        let vs = self.vertices();
        if vs.len() == 0 {
            return Closest::Empty;
        }
        let mut best_i: usize = 0;
        let mut best_d: i128 = sq_dist(&vs[0], query);
        let mut k: usize = 1;
        while k < vs.len()
            invariant
                vs@ == self.all_vertices(),
                self.wf(),
                query.wf(),
                1 <= k <= vs@.len(),
                best_i < k,
                best_d == spec_sq_dist(vs@[best_i as int], *query),
                forall|j: int|
                    0 <= j < k ==> best_d <= spec_sq_dist(#[trigger] vs@[j], *query),
                forall|j: int|
                    0 <= j < best_i ==> spec_sq_dist(#[trigger] vs@[j], *query) > best_d,
            decreases vs@.len() - k,
        {
            let d = sq_dist(&vs[k], query);
            if d < best_d {
                best_d = d;
                best_i = k;
            }
            k += 1;
        }
        let best = vs[best_i];
        if best_d == 0 {
            proof {
                lemma_sq_dist_zero_iff_eq(vs@[best_i as int], *query);
                assert(self.all_vertices()[best_i as int] == *query);
                assert(self.all_vertices().contains(*query));
            }
            Closest::Intersection(*query)
        } else {
            proof {
                lemma_sq_dist_nonneg(vs@[best_i as int], *query);
                if self.all_vertices().contains(*query) {
                    let i = choose|i: int|
                        0 <= i < self.all_vertices().len() && self.all_vertices()[i] == *query;
                    lemma_sq_dist_zero_iff_eq(vs@[i], *query);
                    assert(best_d <= spec_sq_dist(vs@[i], *query));
                    assert(false);
                }
                assert(first_nearest_at(vs@, *query, best_i as int));
                assert(vs@[best_i as int] == best);
                assert(exists|i: int|
                    #[trigger] first_nearest_at(vs@, *query, i) && vs@[i] == best);
            }
            Closest::SinglePoint(best)
        }
    }
}

/// The squared planar distance is never negative.
pub proof fn lemma_sq_dist_nonneg(a: Coordinate, b: Coordinate)
    ensures
        spec_sq_dist(a, b) >= 0,
{
    assert((a.lon_nano - b.lon_nano) * (a.lon_nano - b.lon_nano) >= 0) by (nonlinear_arith);
    assert((a.lat_nano - b.lat_nano) * (a.lat_nano - b.lat_nano) >= 0) by (nonlinear_arith);
}

/// The squared planar distance is zero exactly when the two coordinates
/// are equal.
pub proof fn lemma_sq_dist_zero_iff_eq(a: Coordinate, b: Coordinate)
    ensures
        spec_sq_dist(a, b) == 0 <==> a == b,
{
    let dx = a.lon_nano - b.lon_nano;
    let dy = a.lat_nano - b.lat_nano;
    assert(dx * dx >= 0) by (nonlinear_arith);
    assert(dy * dy >= 0) by (nonlinear_arith);
    assert(dx != 0 ==> dx * dx > 0) by (nonlinear_arith);
    assert(dy != 0 ==> dy * dy > 0) by (nonlinear_arith);
    if spec_sq_dist(a, b) == 0 {
        assert(dx == 0 && dy == 0);
        assert(a == b);
    }
}

} // verus!

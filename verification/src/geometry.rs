//! The geometry collection: an ordered sequence of points, lines and
//! polygons, parsed once at startup and immutable afterwards. The
//! nearest-point search looks at every vertex of every shape, so the
//! collection's mathematical model is the flattened sequence of its
//! vertices.

use vstd::prelude::*;

use crate::coordinate::Coordinate;

verus! {

/// One shape of the collection. Lines and polygons carry their vertex
/// arrays; a polygon's array holds the vertices of all of its rings.
#[derive(Clone, PartialEq, Debug)]
pub enum Geometry {
    Point(Coordinate),
    Line(Vec<Coordinate>),
    Polygon(Vec<Coordinate>),
}

/// The vertices one shape contributes to the search.
pub open spec fn vertices_of(g: Geometry) -> Seq<Coordinate> {
    match g {
        Geometry::Point(c) => seq![c],
        Geometry::Line(cs) => cs@,
        Geometry::Polygon(cs) => cs@,
    }
}

/// The flattened vertex sequence of a sequence of shapes, in shape order.
pub open spec fn spec_vertices_seq(shapes: Seq<Geometry>) -> Seq<Coordinate>
    decreases shapes.len(),
{
    if shapes.len() == 0 {
        Seq::empty()
    } else {
        spec_vertices_seq(shapes.drop_last()) + vertices_of(shapes.last())
    }
}

/// An ordered, heterogeneous collection of shapes.
#[derive(Clone, PartialEq, Debug)]
pub struct GeometryCollection {
    pub shapes: Vec<Geometry>,
}

impl GeometryCollection {
    /// Every vertex of every shape, in order.
    pub open spec fn all_vertices(self) -> Seq<Coordinate> {
        spec_vertices_seq(self.shapes@)
    }

    /// Well-formed: every vertex lies in the valid geographic ranges.
    pub open spec fn wf(self) -> bool {
        forall|i: int|
            0 <= i < self.all_vertices().len() ==> (#[trigger] self.all_vertices()[i]).wf()
    }

    /// An empty collection.
    pub fn new() -> (c: GeometryCollection)
        ensures
            c.shapes@.len() == 0,
            c.all_vertices().len() == 0,
            c.wf(),
    {
        GeometryCollection { shapes: Vec::new() }
    }

    /// Collects every vertex of every shape into one vector, in shape
    /// order.
    pub fn vertices(&self) -> (vs: Vec<Coordinate>)
        ensures
            vs@ == self.all_vertices(),
    {
        let mut out: Vec<Coordinate> = Vec::new();
        let mut i: usize = 0;
        while i < self.shapes.len()
            invariant
                i <= self.shapes@.len(),
                out@ == spec_vertices_seq(self.shapes@.take(i as int)),
            decreases self.shapes@.len() - i,
        {
            match &self.shapes[i] {
                Geometry::Point(c) => {
                    out.push(*c);
                },
                Geometry::Line(cs) => {
                    push_all(&mut out, cs);
                },
                Geometry::Polygon(cs) => {
                    push_all(&mut out, cs);
                },
            }
            proof {
                let s = self.shapes@;
                assert(s.take(i + 1).drop_last() =~= s.take(i as int));
                assert(s.take(i + 1).last() == s[i as int]);
                assert(out@ =~= spec_vertices_seq(s.take(i as int)) + vertices_of(s[i as int]));
            }
            i += 1;
        }
        proof {
            assert(self.shapes@.take(self.shapes@.len() as int) =~= self.shapes@);
        }
        out
    }
}

/// Appends every element of `cs` to `out`, in order.
fn push_all(out: &mut Vec<Coordinate>, cs: &Vec<Coordinate>)
    ensures
        final(out)@ == old(out)@ + cs@,
{
    let mut j: usize = 0;
    while j < cs.len()
        invariant
            j <= cs@.len(),
            out@ == old(out)@ + cs@.take(j as int),
        decreases cs@.len() - j,
    {
        out.push(cs[j]);
        proof {
            assert(cs@.take(j + 1) =~= cs@.take(j as int).push(cs@[j as int]));
        }
        j += 1;
    }
    proof {
        assert(cs@.take(cs@.len() as int) =~= cs@);
    }
}

} // verus!

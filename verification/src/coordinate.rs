//! Geographic coordinates in fixed point: longitude and latitude in
//! nanodegrees (billionths of a degree), so that distance comparisons and
//! the compass classification are exact integer arithmetic.

use vstd::prelude::*;

verus! {

/// Nanodegrees per degree.
pub const NANO_PER_DEGREE: i64 = 1_000_000_000;

/// Largest representable longitude, in nanodegrees (180 degrees).
pub const MAX_LON_NANO: i64 = 180_000_000_000;

/// Largest representable latitude, in nanodegrees (90 degrees).
pub const MAX_LAT_NANO: i64 = 90_000_000_000;

/// A geographic coordinate: (longitude, latitude) in nanodegrees.
/// Immutable once constructed.
#[derive(Clone, Copy, PartialEq, Eq, Structural, Debug)]
pub struct Coordinate {
    pub lon_nano: i64,
    pub lat_nano: i64,
}

impl Coordinate {
    /// Well-formed: within the valid geographic ranges
    /// [-180, 180] degrees longitude and [-90, 90] degrees latitude.
    ///
    /// The squared-distance arithmetic needs some bound on the components
    /// to stay within `i128`; the valid geographic ranges serve as it, so
    /// this is narrower than the machine limit alone would force, and a
    /// query outside the valid ranges is rejected before the search.
    pub open spec fn wf(self) -> bool {
        &&& -MAX_LON_NANO <= self.lon_nano <= MAX_LON_NANO
        &&& -MAX_LAT_NANO <= self.lat_nano <= MAX_LAT_NANO
    }

    /// Builds a coordinate from nanodegree components.
    pub fn new(lon_nano: i64, lat_nano: i64) -> (c: Coordinate)
        requires
            -MAX_LON_NANO <= lon_nano <= MAX_LON_NANO,
            -MAX_LAT_NANO <= lat_nano <= MAX_LAT_NANO,
        ensures
            c.lon_nano == lon_nano,
            c.lat_nano == lat_nano,
            c.wf(),
    {
        Coordinate { lon_nano, lat_nano }
    }
}

/// Squared planar distance between two coordinates, in squared nanodegrees.
/// The nearest-point search compares coordinates by this measure.
pub open spec fn spec_sq_dist(a: Coordinate, b: Coordinate) -> int {
    (a.lon_nano - b.lon_nano) * (a.lon_nano - b.lon_nano)
        + (a.lat_nano - b.lat_nano) * (a.lat_nano - b.lat_nano)
}

/// Computes the squared planar distance between two well-formed coordinates.
pub fn sq_dist(a: &Coordinate, b: &Coordinate) -> (d: i128)
    requires
        a.wf(),
        b.wf(),
    ensures
        d == spec_sq_dist(*a, *b),
        d >= 0,
{
    let dx: i128 = (a.lon_nano as i128) - (b.lon_nano as i128);
    let dy: i128 = (a.lat_nano as i128) - (b.lat_nano as i128);
    proof {
        assert(0 <= dx * dx <= 360_000_000_000i128 * 360_000_000_000i128) by (nonlinear_arith)
            requires
                -360_000_000_000 <= dx <= 360_000_000_000,
        ;
        assert(0 <= dy * dy <= 360_000_000_000i128 * 360_000_000_000i128) by (nonlinear_arith)
            requires
                -360_000_000_000 <= dy <= 360_000_000_000,
        ;
    }
    dx * dx + dy * dy
}

/// The squared planar distance is symmetric: swapping the two coordinates
/// does not change it.
pub proof fn lemma_sq_dist_symmetric(a: Coordinate, b: Coordinate)
    ensures
        spec_sq_dist(a, b) == spec_sq_dist(b, a),
{
    assert((a.lon_nano - b.lon_nano) * (a.lon_nano - b.lon_nano)
        == (b.lon_nano - a.lon_nano) * (b.lon_nano - a.lon_nano)) by (nonlinear_arith);
    assert((a.lat_nano - b.lat_nano) * (a.lat_nano - b.lat_nano)
        == (b.lat_nano - a.lat_nano) * (b.lat_nano - a.lat_nano)) by (nonlinear_arith);
}

} // verus!

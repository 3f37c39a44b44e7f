//! Nearest bicycle-parking lookup.
//!
//! The library holds the program's logic: geographic coordinates in fixed
//! point (nanodegrees), a geometry collection modelled by its flattened
//! vertex sequence, a brute-force nearest-vertex search with a tagged
//! outcome, Euclidean bearing normalization, and the compass-octant
//! classifier. Every comparison the search and the classifier make is
//! exact integer arithmetic; the floating-point geodesic formulas, the
//! GeoJSON parse whose coordinate values are floating point, and the
//! command line are left to the front end around the library.

pub mod bearing;
pub mod closest;
pub mod coordinate;
pub mod dataset;
pub mod direction;
pub mod geometry;

//! Bearing normalization. The geodesic formula reports an initial bearing
//! as an azimuth that may be negative; the program's output and the
//! compass classification speak of bearings in [0, 360) degrees, so the
//! raw value is reduced by a full turn, Euclidean-style.

use vstd::prelude::*;

use vstd::arithmetic::div_mod::{
    lemma_fundamental_div_mod, lemma_fundamental_div_mod_converse_mod,
};

use crate::direction::NANO_FULL_TURN;

verus! {

/// Reduces a bearing in nanodegrees to the equivalent bearing in
/// [0, 360) degrees: the Euclidean remainder by a full turn.
pub fn normalize_bearing(bearing_nano: i64) -> (r: i64)
    ensures
        0 <= r < NANO_FULL_TURN,
        r as int == (bearing_nano as int) % (NANO_FULL_TURN as int),
{
    let m: i128 = 360_000_000_000;
    let b: i128 = bearing_nano as i128;
    let rr: i128 = if b >= 0 {
        b % m
    } else {
        let u: i128 = (-b) % m;
        if u == 0 {
            0
        } else {
            m - u
        }
    };
    proof {
        if b < 0 {
            lemma_fundamental_div_mod(-b as int, m as int);
            let k = (-b as int) / (m as int);
            let u = (-b as int) % (m as int);
            if u == 0 {
                lemma_fundamental_div_mod_converse_mod(b as int, m as int, -k, 0);
            } else {
                lemma_fundamental_div_mod_converse_mod(b as int, m as int, -k - 1, m as int - u);
            }
        }
    }
    rr as i64
}

} // verus!

//! Compass-octant classification of a bearing.
//!
//! A bearing is carried in nanodegrees (billionths of a degree). The
//! classifier first takes the remainder of the bearing by a full turn —
//! keeping the dividend's sign, as Rust's `%` does — and then walks eight
//! inclusive 45-degree ranges in order, first match winning, with anything
//! left over (negative remainders and the stretch above 337.5 degrees)
//! falling through to north.

use vstd::prelude::*;

verus! {

/// Nanodegrees in a full turn (360 degrees).
pub const NANO_FULL_TURN: i64 = 360_000_000_000;

/// One of the eight compass octants.
#[derive(Clone, Copy, PartialEq, Eq, Structural, Debug)]
pub enum Direction {
    North,
    NorthEast,
    East,
    SouthEast,
    South,
    SouthWest,
    West,
    NorthWest,
}

/// Remainder of a bearing by a full turn, keeping the dividend's sign
/// (the semantics of Rust's `%`): the result lies strictly between minus
/// one full turn and one full turn.
pub open spec fn spec_rem_full_turn(b: int) -> int {
    if b >= 0 {
        b % 360_000_000_000
    } else {
        -((-b) % 360_000_000_000)
    }
}

/// The classification table: eight inclusive ranges checked in order, the
/// first match winning, and everything unmatched (negative remainders and
/// remainders above 337.5 degrees) defaulting to north.
pub open spec fn spec_direction_of(b: int) -> Direction {
    let r = spec_rem_full_turn(b);
    if 0 <= r && r <= 22_500_000_000 {
        Direction::North
    } else if 22_500_000_000 <= r && r <= 67_500_000_000 {
        Direction::NorthEast
    } else if 67_500_000_000 <= r && r <= 112_500_000_000 {
        Direction::East
    } else if 112_500_000_000 <= r && r <= 157_500_000_000 {
        Direction::SouthEast
    } else if 157_500_000_000 <= r && r <= 202_500_000_000 {
        Direction::South
    } else if 202_500_000_000 <= r && r <= 247_500_000_000 {
        Direction::SouthWest
    } else if 247_500_000_000 <= r && r <= 292_500_000_000 {
        Direction::West
    } else if 292_500_000_000 <= r && r <= 337_500_000_000 {
        Direction::NorthWest
    } else {
        Direction::North
    }
}

impl From<i64> for Direction {
    /// Classifies a bearing in nanodegrees into a compass octant. Total
    /// over every `i64`: every bearing — negative, zero, or a full turn
    /// and more — maps to exactly one octant, per the table above.
    fn from(bearing_nano: i64) -> (d: Direction) {
        let b: i128 = bearing_nano as i128;
        let r: i128 = if b >= 0 {
            b % 360_000_000_000i128
        } else {
            -((-b) % 360_000_000_000i128)
        };
        if 0 <= r && r <= 22_500_000_000 {
            Direction::North
        } else if 22_500_000_000 <= r && r <= 67_500_000_000 {
            Direction::NorthEast
        } else if 67_500_000_000 <= r && r <= 112_500_000_000 {
            Direction::East
        } else if 112_500_000_000 <= r && r <= 157_500_000_000 {
            Direction::SouthEast
        } else if 157_500_000_000 <= r && r <= 202_500_000_000 {
            Direction::South
        } else if 202_500_000_000 <= r && r <= 247_500_000_000 {
            Direction::SouthWest
        } else if 247_500_000_000 <= r && r <= 292_500_000_000 {
            Direction::West
        } else if 292_500_000_000 <= r && r <= 337_500_000_000 {
            Direction::NorthWest
        } else {
            Direction::North
        }
    }
}

impl vstd::std_specs::convert::FromSpecImpl<i64> for Direction {
    open spec fn obeys_from_spec() -> bool {
        true
    }

    open spec fn from_spec(bearing_nano: i64) -> Direction {
        spec_direction_of(bearing_nano as int)
    }
}

/// On a bearing already in [0, 360) degrees the remainder reduction is a
/// no-op: the classifier reads such a bearing unchanged.
pub proof fn lemma_reduction_noop_in_range(b: int)
    requires
        0 <= b < 360_000_000_000,
    ensures
        spec_rem_full_turn(b) == b,
{
    vstd::arithmetic::div_mod::lemma_small_mod(b as nat, 360_000_000_000nat);
}

/// The abbreviation of each octant, as spoken of in contracts.
pub open spec fn spec_abbrev(d: Direction) -> Seq<char> {
    match d {
        Direction::North => "N"@,
        Direction::NorthEast => "NE"@,
        Direction::East => "E"@,
        Direction::SouthEast => "SE"@,
        Direction::South => "S"@,
        Direction::SouthWest => "SW"@,
        Direction::West => "W"@,
        Direction::NorthWest => "NW"@,
    }
}

impl Direction {
    /// The compass abbreviation used when the octant is printed.
    pub fn abbrev(&self) -> (s: &'static str)
        ensures
            s@ == spec_abbrev(*self),
    {
        match self {
            Direction::North => "N",
            Direction::NorthEast => "NE",
            Direction::East => "E",
            Direction::SouthEast => "SE",
            Direction::South => "S",
            Direction::SouthWest => "SW",
            Direction::West => "W",
            Direction::NorthWest => "NW",
        }
    }
}

} // verus!

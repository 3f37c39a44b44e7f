use bike_parking::bearing::normalize_bearing;
use bike_parking::direction::Direction;

const DEG: i64 = 1_000_000_000;

#[test]
fn classify_zero_is_north() {
    assert_eq!(Direction::from(0), Direction::North);
}

#[test]
fn classify_lower_boundaries_first_match_wins() {
    // Every 22.5-degree boundary belongs to the earlier range.
    assert_eq!(Direction::from(22_500_000_000), Direction::North);
    assert_eq!(Direction::from(67_500_000_000), Direction::NorthEast);
    assert_eq!(Direction::from(112_500_000_000), Direction::East);
    assert_eq!(Direction::from(157_500_000_000), Direction::SouthEast);
    assert_eq!(Direction::from(202_500_000_000), Direction::South);
    assert_eq!(Direction::from(247_500_000_000), Direction::SouthWest);
    assert_eq!(Direction::from(292_500_000_000), Direction::West);
    assert_eq!(Direction::from(337_500_000_000), Direction::NorthWest);
}

#[test]
fn classify_just_past_boundary() {
    // 22.50001 degrees lies past the boundary and falls in the next range.
    assert_eq!(Direction::from(22_500_010_000), Direction::NorthEast);
    assert_eq!(Direction::from(67_500_000_001), Direction::East);
}

#[test]
fn classify_octant_centers() {
    assert_eq!(Direction::from(45 * DEG), Direction::NorthEast);
    assert_eq!(Direction::from(90 * DEG), Direction::East);
    assert_eq!(Direction::from(135 * DEG), Direction::SouthEast);
    assert_eq!(Direction::from(180 * DEG), Direction::South);
    assert_eq!(Direction::from(225 * DEG), Direction::SouthWest);
    assert_eq!(Direction::from(270 * DEG), Direction::West);
    assert_eq!(Direction::from(315 * DEG), Direction::NorthWest);
}

#[test]
fn classify_above_337_5_defaults_to_north() {
    assert_eq!(Direction::from(350 * DEG), Direction::North);
    assert_eq!(Direction::from(359_999_999_999), Direction::North);
}

#[test]
fn classify_negative_defaults_to_north() {
    // A negative remainder matches no range and falls through to north.
    assert_eq!(Direction::from(-45 * DEG), Direction::North);
    assert_eq!(Direction::from(-1), Direction::North);
}

#[test]
fn classify_reduces_full_turns() {
    assert_eq!(Direction::from(765 * DEG), Direction::NorthEast);
    assert_eq!(Direction::from(360 * DEG), Direction::North);
    assert_eq!(Direction::from(720 * DEG + 90 * DEG), Direction::East);
}

#[test]
fn classify_is_total_at_the_extremes() {
    let lo = Direction::from(i64::MIN);
    let hi = Direction::from(i64::MAX);
    assert!(matches!(
        lo,
        Direction::North
            | Direction::NorthEast
            | Direction::East
            | Direction::SouthEast
            | Direction::South
            | Direction::SouthWest
            | Direction::West
            | Direction::NorthWest
    ));
    assert!(matches!(
        hi,
        Direction::North
            | Direction::NorthEast
            | Direction::East
            | Direction::SouthEast
            | Direction::South
            | Direction::SouthWest
            | Direction::West
            | Direction::NorthWest
    ));
}

#[test]
fn abbreviations() {
    assert_eq!(Direction::North.abbrev(), "N");
    assert_eq!(Direction::NorthEast.abbrev(), "NE");
    assert_eq!(Direction::East.abbrev(), "E");
    assert_eq!(Direction::SouthEast.abbrev(), "SE");
    assert_eq!(Direction::South.abbrev(), "S");
    assert_eq!(Direction::SouthWest.abbrev(), "SW");
    assert_eq!(Direction::West.abbrev(), "W");
    assert_eq!(Direction::NorthWest.abbrev(), "NW");
}

#[test]
fn normalize_keeps_values_already_in_range() {
    assert_eq!(normalize_bearing(0), 0);
    assert_eq!(normalize_bearing(5 * DEG), 5 * DEG);
    assert_eq!(normalize_bearing(359_999_999_999), 359_999_999_999);
}

#[test]
fn normalize_wraps_negative_bearings() {
    assert_eq!(normalize_bearing(-90 * DEG), 270 * DEG);
    assert_eq!(normalize_bearing(-1), 359_999_999_999);
    assert_eq!(normalize_bearing(-360 * DEG), 0);
}

#[test]
fn normalize_reduces_full_turns() {
    assert_eq!(normalize_bearing(360 * DEG), 0);
    assert_eq!(normalize_bearing(725 * DEG), 5 * DEG);
}

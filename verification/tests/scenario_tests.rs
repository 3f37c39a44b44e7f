#![allow(deprecated)]

use bike_parking::bearing::normalize_bearing;
use bike_parking::closest::Closest;
use bike_parking::coordinate::Coordinate;
use bike_parking::dataset::dataset_document;
use bike_parking::direction::Direction;
use bike_parking::geometry::{Geometry, GeometryCollection};

use geo::{GeodesicBearing, GeodesicDistance};
use geojson::{quick_collection, GeoJson};

fn to_nano(d: f64) -> i64 {
    (d * 1e9).round() as i64
}

fn convert_coord(c: &geo::Coord<f64>) -> Coordinate {
    Coordinate::new(to_nano(c.x), to_nano(c.y))
}

fn convert_geometry(g: &geo::Geometry<f64>) -> Geometry {
    match g {
        geo::Geometry::Point(p) => Geometry::Point(convert_coord(&p.0)),
        geo::Geometry::LineString(ls) => {
            Geometry::Line(ls.coords().map(convert_coord).collect())
        }
        geo::Geometry::Polygon(poly) => {
            let mut vs: Vec<Coordinate> = poly.exterior().coords().map(convert_coord).collect();
            for ring in poly.interiors() {
                vs.extend(ring.coords().map(convert_coord));
            }
            Geometry::Polygon(vs)
        }
        _ => panic!("unsupported shape in the dataset"),
    }
}

fn load_collection() -> GeometryCollection {
    let geojson: GeoJson = dataset_document().parse().unwrap();
    let collection: geo::GeometryCollection<f64> = quick_collection(&geojson).unwrap();
    GeometryCollection {
        shapes: collection.iter().map(convert_geometry).collect(),
    }
}

#[test]
fn end_to_end_query_against_bundled_dataset() {
    let collection = load_collection();
    let query = Coordinate::new(to_nano(-73.91326042038499), to_nano(40.68723037854061));

    let closest = collection.closest_point(&query);
    let point = match closest {
        Closest::SinglePoint(p) => p,
        other => panic!("expected a single point, got {:?}", other),
    };
    assert_eq!(point, Coordinate::new(-73_909_400_000, 40_690_100_000));

    let location = geo::Point::new(-73.91326042038499, 40.68723037854061);
    let nearest = geo::Point::new(point.lon_nano as f64 / 1e9, point.lat_nano as f64 / 1e9);

    let distance = nearest.geodesic_distance(&location);
    assert!(distance.is_finite());
    assert!(distance >= 0.0);
    assert!(distance < 10_000.0);

    let bearing = normalize_bearing(to_nano(location.geodesic_bearing(nearest)));
    assert!(0 <= bearing && bearing < 360_000_000_000);
    assert_eq!(Direction::from(bearing), Direction::NorthEast);
}

#[test]
fn reparsing_the_dataset_is_deterministic() {
    let first = load_collection();
    let second = load_collection();
    assert_eq!(first.shapes.len(), 5);
    assert_eq!(first, second);
    assert_eq!(first.vertices(), second.vertices());
}

#[test]
fn geodesic_distance_is_symmetric() {
    let a = geo::Point::new(-74.006, 40.7128);
    let b = geo::Point::new(-0.1278, 51.5074);
    let ab = a.geodesic_distance(&b);
    let ba = b.geodesic_distance(&a);
    assert!((ab - ba).abs() < 1e-6);
}

#[test]
fn bearings_normalize_into_range() {
    let pairs = [
        ((-74.006, 40.7128), (-0.1278, 51.5074)),
        ((-0.1278, 51.5074), (-74.006, 40.7128)),
        ((-73.9094, 40.6901), (-73.917, 40.684)),
        ((151.2093, -33.8688), (-58.3816, -34.6037)),
    ];
    for ((ax, ay), (bx, by)) in pairs {
        let a = geo::Point::new(ax, ay);
        let b = geo::Point::new(bx, by);
        let raw = a.geodesic_bearing(b);
        assert!(raw.is_finite());
        let normalized = normalize_bearing(to_nano(raw));
        assert!(0 <= normalized && normalized < 360_000_000_000);
    }
}

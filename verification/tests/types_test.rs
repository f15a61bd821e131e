//! Tests of the basic value types: levels, codes, directions, coordinates
//! and bounding boxes. Angles are given in micro-degrees.

use jismeshcode::{BoundingBox, Coordinate, Direction, MeshCode, MeshLevel};

fn c(lat_micro: i64, lon_micro: i64) -> Coordinate {
    Coordinate::from_micro_degrees(lat_micro, lon_micro).unwrap()
}

fn deg(units: i64) -> f64 {
    units as f64 / 12_000_000.0
}

#[test]
fn test_mesh_code_creation() {
    let mesh = MeshCode::new(MeshLevel::First, 5339).unwrap();
    assert_eq!(mesh.level(), MeshLevel::First);
    assert_eq!(mesh.code(), 5339);
    assert_eq!(mesh.as_string(), "5339");
}

#[test]
fn test_mesh_code_from_str() {
    let mesh = MeshCode::from_str("5339").unwrap();
    assert_eq!(mesh.level(), MeshLevel::First);
    assert_eq!(mesh.code(), 5339);

    let mesh = MeshCode::from_str("53393599").unwrap();
    assert_eq!(mesh.level(), MeshLevel::Third);
    assert_eq!(mesh.code(), 53393599);
}

#[test]
fn test_invalid_mesh_code() {
    assert!(MeshCode::from_str("").is_err());
    assert!(MeshCode::from_str("abc").is_err());
    assert!(MeshCode::from_str("12345").is_err());
}

#[test]
fn test_mesh_code_display() {
    let mesh = MeshCode::from_str("0001").unwrap();
    assert_eq!(mesh.as_string(), "0001");
    assert_eq!(mesh.as_string(), "0001");
}

#[test]
fn test_from_code_length() {
    assert_eq!(MeshLevel::from_code_length(4).unwrap(), MeshLevel::First);
    assert_eq!(MeshLevel::from_code_length(6).unwrap(), MeshLevel::Second);
    assert_eq!(MeshLevel::from_code_length(8).unwrap(), MeshLevel::Third);
    assert!(MeshLevel::from_code_length(3).is_err());
}

#[test]
fn test_lat_lon_size() {
    assert!((deg(MeshLevel::First.lat_size_units()) - 40.0 / 60.0).abs() < 1e-10);
    assert!((deg(MeshLevel::First.lon_size_units()) - 1.0).abs() < 1e-10);
    assert!((deg(MeshLevel::Third.lat_size_units()) - 30.0 / 3600.0).abs() < 1e-10);
}

#[test]
fn mesh_level_test_parent() {
    assert_eq!(MeshLevel::Third.parent(), Some(MeshLevel::Second));
    assert_eq!(MeshLevel::Second.parent(), Some(MeshLevel::First));
    assert_eq!(MeshLevel::First.parent(), None);
}

#[test]
fn test_offset() {
    assert_eq!(Direction::North.offset(), (0, 1));
    assert_eq!(Direction::East.offset(), (1, 0));
    assert_eq!(Direction::SouthWest.offset(), (-1, -1));
}

#[test]
fn test_opposite() {
    assert_eq!(Direction::North.opposite(), Direction::South);
    assert_eq!(Direction::East.opposite(), Direction::West);
    assert_eq!(Direction::NorthEast.opposite(), Direction::SouthWest);
}

#[test]
fn test_valid_coordinate() {
    let coord = c(35_681_200, 139_767_100);
    assert_eq!(coord.lat(), 35_681_200 * 12);
    assert_eq!(coord.lon(), 139_767_100 * 12);
}

#[test]
fn coordinate_test_invalid_latitude() {
    assert!(Coordinate::from_micro_degrees(91_000_000, 139_000_000).is_err());
    assert!(Coordinate::from_micro_degrees(-91_000_000, 139_000_000).is_err());
}

#[test]
fn coordinate_test_invalid_longitude() {
    assert!(Coordinate::from_micro_degrees(35_000_000, 181_000_000).is_err());
    assert!(Coordinate::from_micro_degrees(35_000_000, -181_000_000).is_err());
}

#[test]
fn coordinate_test_out_of_japan_range() {
    assert!(Coordinate::from_micro_degrees(0, 0).is_err());
    assert!(Coordinate::from_micro_degrees(50_000_000, 100_000_000).is_err());
}

#[test]
fn test_bounding_box() {
    let sw = Coordinate::new_unchecked(35 * 12_000_000, 139 * 12_000_000);
    let ne = Coordinate::new_unchecked(36 * 12_000_000, 140 * 12_000_000);
    let bbox = BoundingBox::new(sw, ne);

    assert_eq!(bbox.min_lat(), 35 * 12_000_000);
    assert_eq!(bbox.max_lat(), 36 * 12_000_000);
    assert_eq!(bbox.min_lon(), 139 * 12_000_000);
    assert_eq!(bbox.max_lon(), 140 * 12_000_000);
}

#[test]
fn bounding_box_test_contains() {
    let sw = Coordinate::new_unchecked(35 * 12_000_000, 139 * 12_000_000);
    let ne = Coordinate::new_unchecked(36 * 12_000_000, 140 * 12_000_000);
    let bbox = BoundingBox::new(sw, ne);

    let inside = Coordinate::new_unchecked(35 * 12_000_000 + 6_000_000, 139 * 12_000_000 + 6_000_000);
    let outside = Coordinate::new_unchecked(37 * 12_000_000, 139 * 12_000_000 + 6_000_000);

    assert!(bbox.contains(inside));
    assert!(!bbox.contains(outside));
}

#[test]
fn bounding_box_test_center() {
    let sw = Coordinate::new_unchecked(35 * 12_000_000, 139 * 12_000_000);
    let ne = Coordinate::new_unchecked(36 * 12_000_000, 140 * 12_000_000);
    let bbox = BoundingBox::new(sw, ne);

    let center = bbox.center();
    assert_eq!(center.lat(), 35 * 12_000_000 + 6_000_000);
    assert_eq!(center.lon(), 139 * 12_000_000 + 6_000_000);
}

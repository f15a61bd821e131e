//! Coordinate-to-code and code-to-rectangle conversion tests, across all
//! levels and at boundary values. Coordinates are given in micro-degrees.

use jismeshcode::{
    bounds, center, children, contains, coord_to_mesh, mesh_to_bounds, mesh_to_center, parent,
    to_level, Coordinate, MeshCode, MeshLevel,
};

fn c(lat_micro: i64, lon_micro: i64) -> Coordinate {
    Coordinate::from_micro_degrees(lat_micro, lon_micro).unwrap()
}

fn deg(units: i64) -> f64 {
    units as f64 / 12_000_000.0
}

#[test]
fn test_tokyo_station_first_mesh() {
    let coord = c(35_681_200, 139_767_100);
    let mesh = coord_to_mesh(coord, MeshLevel::First).unwrap();
    assert_eq!(mesh.as_string(), "5339");
}

#[test]
fn test_tokyo_station_third_mesh() {
    let coord = c(35_681_200, 139_767_100);
    let mesh = coord_to_mesh(coord, MeshLevel::Third).unwrap();
    assert_eq!(mesh.as_string(), "53394611");
}

#[test]
fn test_first_mesh_bounds() {
    let mesh = MeshCode::from_str("5339").unwrap();
    let b = mesh_to_bounds(mesh);

    let expected_lat = (5.0 * 10.0 + 3.0) / 1.5;
    let expected_lon = 3.0 * 10.0 + 9.0 + 100.0;

    assert!((deg(b.min_lat()) - expected_lat).abs() < 1e-10);
    assert!((deg(b.min_lon()) - expected_lon).abs() < 1e-10);
}

#[test]
fn test_third_mesh_center() {
    let mesh = MeshCode::from_str("53393599").unwrap();
    let ctr = mesh_to_center(mesh);

    assert!(deg(ctr.lat()) >= 35.0 && deg(ctr.lat()) <= 36.0);
    assert!(deg(ctr.lon()) >= 139.0 && deg(ctr.lon()) <= 140.0);
}

#[test]
fn test_bounds() {
    let mesh = MeshCode::from_str("5339").unwrap();
    let bbox = bounds(mesh);
    assert!(bbox.min_lat() > 0);
    assert!(bbox.max_lat() > bbox.min_lat());
}

#[test]
fn bounds_test_center() {
    let mesh = MeshCode::from_str("53393599").unwrap();
    let ctr = center(mesh);
    assert!(deg(ctr.lat()) > 35.0 && deg(ctr.lat()) < 36.0);
    assert!(deg(ctr.lon()) > 139.0 && deg(ctr.lon()) < 140.0);
}

#[test]
fn bounds_test_contains() {
    let mesh = MeshCode::from_str("53393599").unwrap();
    let ctr = center(mesh);
    assert!(contains(mesh, ctr));
}

#[test]
fn test_first_mesh_boundaries() {
    let sw = c(35_333_334, 139_000_000);
    let mesh = coord_to_mesh(sw, MeshLevel::First).unwrap();
    assert_eq!(mesh.as_string(), "5339");

    let ne_inside = c(35_999_000, 139_999_000);
    let mesh = coord_to_mesh(ne_inside, MeshLevel::First).unwrap();
    assert_eq!(mesh.as_string(), "5339");

    let ne_outside = c(36_001_000, 140_001_000);
    let mesh = coord_to_mesh(ne_outside, MeshLevel::First).unwrap();
    assert_ne!(mesh.as_string(), "5339");
}

#[test]
fn test_first_mesh_all_digits() {
    let coord = c(35_500_000, 139_500_000);
    let mesh = coord_to_mesh(coord, MeshLevel::First).unwrap();
    assert_eq!(mesh.as_string(), "5339");

    let coord = c(35_000_000, 138_500_000);
    let mesh = coord_to_mesh(coord, MeshLevel::First).unwrap();
    assert_eq!(mesh.as_string(), "5238");

    let coord = c(43_000_000, 141_500_000);
    let mesh = coord_to_mesh(coord, MeshLevel::First).unwrap();
    assert_eq!(mesh.as_string(), "6441");

    let coord = c(26_500_000, 128_000_000);
    let mesh = coord_to_mesh(coord, MeshLevel::First).unwrap();
    assert_eq!(mesh.as_string(), "3928");
}

#[test]
fn test_second_mesh_conversion() {
    let coord = c(35_681_200, 139_767_100);
    let mesh = coord_to_mesh(coord, MeshLevel::Second).unwrap();
    assert_eq!(mesh.as_string(), "533946");

    let first = to_level(mesh, MeshLevel::First).unwrap();
    assert_eq!(first.as_string(), "5339");
}

#[test]
fn test_second_mesh_all_subdivisions() {
    let first_mesh = MeshCode::from_str("5339").unwrap();
    let children_list = children(first_mesh);

    assert_eq!(children_list.len(), 64);

    for t in 0..8 {
        for u in 0..8 {
            let expected = format!("5339{}{}", t, u);
            assert!(
                children_list.iter().any(|m| m.as_string() == expected),
                "Missing second mesh: {}",
                expected
            );
        }
    }
}

#[test]
fn test_second_mesh_boundaries() {
    let inside = c(35_676_667, 139_760_000);
    let mesh = coord_to_mesh(inside, MeshLevel::Second).unwrap();
    assert_eq!(mesh.as_string(), "533946");
}

#[test]
fn test_third_mesh_conversion() {
    let coord = c(35_681_200, 139_767_100);
    let mesh = coord_to_mesh(coord, MeshLevel::Third).unwrap();
    assert_eq!(mesh.as_string(), "53394611");
}

#[test]
fn test_third_mesh_all_subdivisions() {
    let second_mesh = MeshCode::from_str("533946").unwrap();
    let children_list = children(second_mesh);

    assert_eq!(children_list.len(), 100);

    for v in 0..10 {
        for w in 0..10 {
            let expected = format!("533946{}{}", v, w);
            assert!(
                children_list.iter().any(|m| m.as_string() == expected),
                "Missing third mesh: {}",
                expected
            );
        }
    }
}

#[test]
fn test_third_mesh_size() {
    let mesh = MeshCode::from_str("53394611").unwrap();
    let b = mesh_to_bounds(mesh);

    let lat_diff = deg(b.max_lat()) - deg(b.min_lat());
    let lon_diff = deg(b.max_lon()) - deg(b.min_lon());

    assert!((lat_diff - 30.0 / 3600.0).abs() < 1e-10);
    assert!((lon_diff - 45.0 / 3600.0).abs() < 1e-10);
}

#[test]
fn test_fourth_half_mesh_conversion() {
    let third = MeshCode::from_str("53394611").unwrap();
    let b = mesh_to_bounds(third);
    let ctr = b.center();

    let mesh = coord_to_mesh(ctr, MeshLevel::FourthHalf).unwrap();

    let parent_mesh = parent(mesh).unwrap();
    assert_eq!(parent_mesh.as_string(), "53394611");
}

#[test]
fn test_fourth_half_mesh_all_subdivisions() {
    let third = MeshCode::from_str("53394611").unwrap();
    let children_list = children(third);

    assert_eq!(children_list.len(), 4);

    for i in 1..=4 {
        let expected = format!("53394611{}", i);
        assert!(
            children_list.iter().any(|m| m.as_string() == expected),
            "Missing fourth half mesh: {}",
            expected
        );
    }
}

#[test]
fn test_fourth_half_mesh_quadrants() {
    let third_bounds = mesh_to_bounds(MeshCode::from_str("53394611").unwrap());

    let lat_mid = (third_bounds.min_lat() + third_bounds.max_lat()) / 2;
    let lon_mid = (third_bounds.min_lon() + third_bounds.max_lon()) / 2;
    let step = 12_000; // 0.001 degrees in angle units

    let ne = Coordinate::new_unchecked(lat_mid + step, lon_mid + step);
    let mesh = coord_to_mesh(ne, MeshLevel::FourthHalf).unwrap();
    assert_eq!(mesh.as_string(), "533946111");

    let se = Coordinate::new_unchecked(lat_mid - step, lon_mid + step);
    let mesh = coord_to_mesh(se, MeshLevel::FourthHalf).unwrap();
    assert_eq!(mesh.as_string(), "533946112");

    let nw = Coordinate::new_unchecked(lat_mid + step, lon_mid - step);
    let mesh = coord_to_mesh(nw, MeshLevel::FourthHalf).unwrap();
    assert_eq!(mesh.as_string(), "533946113");

    let sw = Coordinate::new_unchecked(lat_mid - step, lon_mid - step);
    let mesh = coord_to_mesh(sw, MeshLevel::FourthHalf).unwrap();
    assert_eq!(mesh.as_string(), "533946114");
}

#[test]
fn test_fourth_quarter_mesh_conversion() {
    let coord = c(35_681_200, 139_767_100);
    let mesh = coord_to_mesh(coord, MeshLevel::FourthQuarter).unwrap();

    let parent_mesh = parent(mesh).unwrap();
    assert_eq!(parent_mesh.level(), MeshLevel::Third);
}

#[test]
fn test_fourth_quarter_mesh_range() {
    let third = MeshCode::from_str("53394611").unwrap();
    let b = mesh_to_bounds(third);

    let lat_step = (b.max_lat() - b.min_lat()) / 4;
    let lon_step = (b.max_lon() - b.min_lon()) / 4;

    for i in 0..4_i64 {
        for j in 0..4_i64 {
            let lat = b.min_lat() + i * lat_step + lat_step / 2;
            let lon = b.min_lon() + j * lon_step + lon_step / 2;
            let coord = Coordinate::new_unchecked(lat, lon);
            let mesh = coord_to_mesh(coord, MeshLevel::FourthQuarter).unwrap();

            let code_str = mesh.as_string();
            let last_two = &code_str[code_str.len() - 2..];
            let num: u32 = last_two.parse().unwrap();
            assert!(num >= 1 && num <= 16, "Invalid fourth quarter code: {}", num);
        }
    }
}

#[test]
fn test_fifth_mesh_conversion() {
    let coord = c(35_681_200, 139_767_100);
    let mesh = coord_to_mesh(coord, MeshLevel::Fifth).unwrap();

    let parent_mesh = parent(mesh).unwrap();
    assert_eq!(parent_mesh.level(), MeshLevel::Third);

    let b = mesh_to_bounds(mesh);
    let lat_diff = deg(b.max_lat()) - deg(b.min_lat());
    let lon_diff = deg(b.max_lon()) - deg(b.min_lon());

    assert!((lat_diff - 3.0 / 3600.0).abs() < 1e-10);
    assert!((lon_diff - 4.5 / 3600.0).abs() < 1e-10);
}

#[test]
fn test_roundtrip_all_levels() {
    let original_coord = c(35_681_200, 139_767_100);

    for level in [
        MeshLevel::First,
        MeshLevel::Second,
        MeshLevel::Third,
        MeshLevel::FourthHalf,
        MeshLevel::FourthQuarter,
        MeshLevel::Fifth,
    ] {
        let mesh = coord_to_mesh(original_coord, level).unwrap();
        let b = mesh_to_bounds(mesh);
        assert!(b.contains(original_coord), "Roundtrip failed for level {:?}", level);
    }
}

#[test]
fn test_roundtrip_precision() {
    let test_coords = vec![
        (35_681_200_i64, 139_767_100_i64),
        (35_658_600, 139_745_400),
        (43_064_200, 141_346_900),
        (26_212_400, 127_680_900),
        (35_011_600, 135_768_100),
    ];

    for (lat_micro, lon_micro) in test_coords {
        let coord = c(lat_micro, lon_micro);
        let mesh = coord_to_mesh(coord, MeshLevel::Third).unwrap();
        let ctr = mesh_to_center(mesh);

        let lat_diff = (deg(ctr.lat()) - deg(coord.lat())).abs();
        let lon_diff = (deg(ctr.lon()) - deg(coord.lon())).abs();

        assert!(lat_diff < 15.0 / 3600.0, "Latitude difference too large: {}", lat_diff);
        assert!(lon_diff < 22.5 / 3600.0, "Longitude difference too large: {}", lon_diff);
    }
}

#[test]
fn test_japan_boundary_coordinates() {
    let boundary_coords = vec![
        (20_500_000_i64, 136_000_000_i64),
        (45_500_000, 141_000_000),
        (35_000_000, 122_500_000),
        (35_000_000, 153_500_000),
    ];

    for (lat_micro, lon_micro) in boundary_coords {
        let coord = c(lat_micro, lon_micro);
        for level in [MeshLevel::First, MeshLevel::Second, MeshLevel::Third] {
            let mesh = coord_to_mesh(coord, level).unwrap();
            let b = mesh_to_bounds(mesh);
            assert!(b.contains(coord));
        }
    }
}

#[test]
fn test_mesh_code_boundaries() {
    let min_coord = c(20_100_000, 122_100_000);
    let max_coord = c(45_900_000, 153_900_000);

    let min_mesh = coord_to_mesh(min_coord, MeshLevel::First).unwrap();
    let max_mesh = coord_to_mesh(max_coord, MeshLevel::First).unwrap();

    assert_eq!(min_mesh.as_string().len(), 4);
    assert_eq!(max_mesh.as_string().len(), 4);
}

#[test]
fn test_conversion_consistency() {
    let mesh = MeshCode::from_str("53394611").unwrap();
    let b = mesh_to_bounds(mesh);

    for i in 0..3_i64 {
        for j in 0..3_i64 {
            let lat = b.min_lat() + (2 * i + 1) * (b.max_lat() - b.min_lat()) / 6;
            let lon = b.min_lon() + (2 * j + 1) * (b.max_lon() - b.min_lon()) / 6;
            let coord = Coordinate::new_unchecked(lat, lon);
            let converted = coord_to_mesh(coord, MeshLevel::Third).unwrap();

            assert_eq!(
                converted.as_string(),
                mesh.as_string(),
                "Inconsistent conversion at ({}, {})",
                lat,
                lon
            );
        }
    }
}

#[test]
fn test_adjacent_mesh_boundaries() {
    let mesh1 = MeshCode::from_str("53394611").unwrap();
    let mesh2 = MeshCode::from_str("53394612").unwrap();

    let bounds1 = mesh_to_bounds(mesh1);
    let bounds2 = mesh_to_bounds(mesh2);

    assert!(
        bounds1.max_lon() == bounds2.min_lon(),
        "Adjacent mesh boundaries don't match"
    );
}

#[test]
fn test_roundtrip_conversion() {
    let coord = c(35_681_200, 139_767_100);
    let mesh = coord_to_mesh(coord, MeshLevel::Third).unwrap();
    let b = mesh_to_bounds(mesh);

    assert!(b.contains(coord));
}

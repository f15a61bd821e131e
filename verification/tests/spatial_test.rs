//! Rectangle sweep and radius search tests. The tests drive the verified
//! scan and filter with great-circle distances computed here, the way an
//! embedding application would.

use jismeshcode::{
    coord_to_mesh, mesh_codes_in_bbox, mesh_codes_in_radius, mesh_codes_in_radius_from_mesh,
    mesh_to_center, BoundingBox, Coordinate, MeshCode, MeshCodeRadiusIterator, MeshLevel,
};

const UNITS_PER_DEGREE: f64 = 12_000_000.0;
const METERS_PER_DEGREE: f64 = 111_320.0;
const EARTH_RADIUS_METERS: f64 = 6_371_000.0;
const MAX_HALF_EXTENT: i64 = 4_320_000_000;

fn c(lat_micro: i64, lon_micro: i64) -> Coordinate {
    Coordinate::from_micro_degrees(lat_micro, lon_micro).unwrap()
}

fn deg(units: i64) -> f64 {
    units as f64 / UNITS_PER_DEGREE
}

fn haversine_meters(a: &Coordinate, b: &Coordinate) -> f64 {
    let lat1 = deg(a.lat()).to_radians();
    let lat2 = deg(b.lat()).to_radians();
    let dlat = lat2 - lat1;
    let dlon = (deg(b.lon()) - deg(a.lon())).to_radians();
    let h = (dlat / 2.0).sin().powi(2) + lat1.cos() * lat2.cos() * (dlon / 2.0).sin().powi(2);
    2.0 * EARTH_RADIUS_METERS * h.sqrt().atan2((1.0 - h).sqrt())
}

fn half_extents(center: &Coordinate, radius_meters: f64) -> (i64, i64) {
    if radius_meters <= 0.0 {
        return (0, 0);
    }
    let lat_off = radius_meters / METERS_PER_DEGREE;
    let lon_off = radius_meters / (METERS_PER_DEGREE * deg(center.lat()).to_radians().cos());
    let lat_half = ((lat_off * UNITS_PER_DEGREE).ceil() as i64).clamp(0, MAX_HALF_EXTENT);
    let lon_half = ((lon_off * UNITS_PER_DEGREE).ceil() as i64).clamp(0, MAX_HALF_EXTENT);
    (lat_half, lon_half)
}

fn next_in_radius(
    scan: &mut MeshCodeRadiusIterator,
    center: &Coordinate,
    radius_mm: i64,
) -> Option<MeshCode> {
    loop {
        let m = scan.next_candidate()?;
        if radius_mm <= 0 {
            return Some(m);
        }
        let d = haversine_meters(center, &mesh_to_center(m));
        if scan.keep((d * 1000.0) as i64) {
            return Some(m);
        }
    }
}

fn radius_codes(center: Coordinate, radius_meters: f64, level: MeshLevel) -> Vec<MeshCode> {
    let radius_mm = (radius_meters * 1000.0) as i64;
    let (lat_half, lon_half) = half_extents(&center, radius_meters);
    let mut scan = mesh_codes_in_radius(center, radius_mm, lat_half, lon_half, level);
    let mut out = Vec::new();
    while let Some(m) = next_in_radius(&mut scan, &center, radius_mm) {
        out.push(m);
    }
    out
}

fn radius_codes_from_mesh(mesh: MeshCode, radius_meters: f64) -> Vec<MeshCode> {
    let center = mesh_to_center(mesh);
    let radius_mm = (radius_meters * 1000.0) as i64;
    let (lat_half, lon_half) = half_extents(&center, radius_meters);
    let mut scan = mesh_codes_in_radius_from_mesh(mesh, radius_mm, lat_half, lon_half);
    let mut out = Vec::new();
    while let Some(m) = next_in_radius(&mut scan, &center, radius_mm) {
        out.push(m);
    }
    out
}

#[test]
fn test_mesh_codes_in_bbox() {
    let sw = c(35_600_000, 139_700_000);
    let ne = c(35_700_000, 139_800_000);
    let bbox = BoundingBox::new(sw, ne);

    let mut it = mesh_codes_in_bbox(bbox, MeshLevel::Third);
    let mut meshes = Vec::new();
    while let Some(m) = it.next() {
        meshes.push(m);
    }
    assert!(meshes.len() > 0);
    assert!(meshes.iter().all(|m| m.level() == MeshLevel::Third));
}

#[test]
fn test_bbox_iteration() {
    let sw = c(35_600_000, 139_700_000);
    let ne = c(35_700_000, 139_800_000);
    let bbox = BoundingBox::new(sw, ne);

    let mut it = mesh_codes_in_bbox(bbox, MeshLevel::Third);
    let mut meshes = Vec::new();
    while let Some(m) = it.next() {
        meshes.push(m);
    }

    assert!(meshes.len() > 0);
    let margin = 1_200_000; // 0.1 degrees in angle units
    for mesh in meshes {
        let center = mesh_to_center(mesh);
        assert!(
            center.lat() >= sw.lat() - margin && center.lat() <= ne.lat() + margin,
            "Mesh center latitude out of range"
        );
        assert!(
            center.lon() >= sw.lon() - margin && center.lon() <= ne.lon() + margin,
            "Mesh center longitude out of range"
        );
    }
}

#[test]
fn test_mesh_codes_in_radius_zero() {
    let tokyo = c(35_681_200, 139_767_100);
    let meshes = radius_codes(tokyo, 0.0, MeshLevel::Third);

    assert_eq!(meshes.len(), 1);
    let expected = coord_to_mesh(tokyo, MeshLevel::Third).unwrap();
    assert_eq!(meshes[0], expected);
}

#[test]
fn test_mesh_codes_in_radius_positive() {
    let tokyo = c(35_681_200, 139_767_100);
    let meshes = radius_codes(tokyo, 1000.0, MeshLevel::Third);

    assert!(meshes.len() > 1);

    for mesh in &meshes {
        let mesh_center = mesh_to_center(*mesh);
        let distance = haversine_meters(&tokyo, &mesh_center);
        assert!(
            distance <= 1000.0 + 0.001,
            "mesh {} at {:.2}m should be within 1000m",
            mesh.as_string(),
            distance
        );
    }
}

#[test]
fn test_mesh_codes_in_radius_negative() {
    let tokyo = c(35_681_200, 139_767_100);
    let meshes = radius_codes(tokyo, -100.0, MeshLevel::Third);
    assert_eq!(meshes.len(), 0);
}

#[test]
fn test_mesh_codes_in_radius_from_mesh() {
    let mesh = coord_to_mesh(c(35_681_200, 139_767_100), MeshLevel::Third).unwrap();
    let nearby = radius_codes_from_mesh(mesh, 1000.0);

    assert!(nearby.contains(&mesh));
    assert!(nearby.len() > 1);
    assert!(nearby.iter().all(|m| m.level() == mesh.level()));
}

#[test]
fn test_mesh_codes_in_radius_increasing_radius() {
    let tokyo = c(35_681_200, 139_767_100);

    let meshes_500 = radius_codes(tokyo, 500.0, MeshLevel::Third);
    let meshes_1000 = radius_codes(tokyo, 1000.0, MeshLevel::Third);
    let meshes_2000 = radius_codes(tokyo, 2000.0, MeshLevel::Third);

    assert!(meshes_500.len() < meshes_1000.len());
    assert!(meshes_1000.len() < meshes_2000.len());
}

#[test]
fn test_mesh_codes_in_radius_different_levels() {
    let tokyo = c(35_681_200, 139_767_100);

    let first_level = radius_codes(tokyo, 10000.0, MeshLevel::First);
    let second_level = radius_codes(tokyo, 10000.0, MeshLevel::Second);
    let third_level = radius_codes(tokyo, 10000.0, MeshLevel::Third);

    assert!(first_level.len() < second_level.len());
    assert!(second_level.len() < third_level.len());

    assert!(first_level.iter().all(|m| m.level() == MeshLevel::First));
    assert!(second_level.iter().all(|m| m.level() == MeshLevel::Second));
    assert!(third_level.iter().all(|m| m.level() == MeshLevel::Third));
}

#[test]
fn test_basic_radius_search_1000m() {
    let tokyo = c(35_681_200, 139_767_100);
    let meshes = radius_codes(tokyo, 1000.0, MeshLevel::Third);

    assert!(meshes.len() > 1);
    assert!(meshes.len() < 100, "mesh count within 1000m should be moderate");

    let center_mesh = coord_to_mesh(tokyo, MeshLevel::Third).unwrap();
    assert!(meshes.contains(&center_mesh));

    for mesh in &meshes {
        let mesh_center = mesh_to_center(*mesh);
        let distance = haversine_meters(&tokyo, &mesh_center);
        assert!(
            distance <= 1000.0 + 0.001,
            "mesh {} at {:.2}m should be within 1000m",
            mesh.as_string(),
            distance
        );
    }
}

#[test]
fn test_mesh_based_radius_search() {
    let mesh = MeshCode::from_str("53394611").unwrap();
    let nearby = radius_codes_from_mesh(mesh, 1000.0);

    assert!(nearby.contains(&mesh));
    assert!(nearby.len() > 1);
    assert!(nearby.iter().all(|m| m.level() == mesh.level()));

    let center = mesh_to_center(mesh);
    for m in &nearby {
        let m_center = mesh_to_center(*m);
        let distance = haversine_meters(&center, &m_center);
        assert!(distance <= 1000.0 + 0.001, "{:.2}m should be within 1000m", distance);
    }
}

#[test]
fn test_radius_zero() {
    let tokyo = c(35_681_200, 139_767_100);
    let meshes = radius_codes(tokyo, 0.0, MeshLevel::Third);

    assert_eq!(meshes.len(), 1);
    let expected = coord_to_mesh(tokyo, MeshLevel::Third).unwrap();
    assert_eq!(meshes[0], expected);
}

#[test]
fn test_radius_negative() {
    let tokyo = c(35_681_200, 139_767_100);
    let meshes = radius_codes(tokyo, -100.0, MeshLevel::Third);
    assert_eq!(meshes.len(), 0);
}

#[test]
fn test_increasing_radius() {
    let tokyo = c(35_681_200, 139_767_100);

    let meshes_500 = radius_codes(tokyo, 500.0, MeshLevel::Third);
    let meshes_1000 = radius_codes(tokyo, 1000.0, MeshLevel::Third);
    let meshes_2000 = radius_codes(tokyo, 2000.0, MeshLevel::Third);
    let meshes_5000 = radius_codes(tokyo, 5000.0, MeshLevel::Third);

    assert!(meshes_500.len() < meshes_1000.len());
    assert!(meshes_1000.len() < meshes_2000.len());
    assert!(meshes_2000.len() < meshes_5000.len());
}

#[test]
fn test_different_mesh_levels() {
    let tokyo = c(35_681_200, 139_767_100);
    let radius = 10000.0;

    let first_level = radius_codes(tokyo, radius, MeshLevel::First);
    let second_level = radius_codes(tokyo, radius, MeshLevel::Second);
    let third_level = radius_codes(tokyo, radius, MeshLevel::Third);

    assert!(first_level.len() < second_level.len());
    assert!(second_level.len() < third_level.len());

    assert!(first_level.iter().all(|m| m.level() == MeshLevel::First));
    assert!(second_level.iter().all(|m| m.level() == MeshLevel::Second));
    assert!(third_level.iter().all(|m| m.level() == MeshLevel::Third));
}

#[test]
fn test_iterator_pattern() {
    let tokyo = c(35_681_200, 139_767_100);
    let radius_mm = 2_000_000;
    let (lat_half, lon_half) = half_extents(&tokyo, 2000.0);

    let mut scan = mesh_codes_in_radius(tokyo, radius_mm, lat_half, lon_half, MeshLevel::Third);

    let first = next_in_radius(&mut scan, &tokyo, radius_mm);
    assert!(first.is_some());

    let second = next_in_radius(&mut scan, &tokyo, radius_mm);
    assert!(second.is_some());

    let total = radius_codes(tokyo, 2000.0, MeshLevel::Third);
    assert!(total.len() > 2, "there are at least three cells within 2000m");
}

#[test]
fn test_large_radius() {
    let tokyo = c(35_681_200, 139_767_100);
    let meshes = radius_codes(tokyo, 50000.0, MeshLevel::Third);

    assert!(meshes.len() > 100);

    for mesh in &meshes {
        let mesh_center = mesh_to_center(*mesh);
        let distance = haversine_meters(&tokyo, &mesh_center);
        assert!(
            distance <= 50000.0 + 0.001,
            "{:.2}m should be within 50km",
            distance
        );
    }
}

#[test]
fn test_edge_case_japan_boundary() {
    let hokkaido = c(45_000_000, 141_000_000);
    let meshes = radius_codes(hokkaido, 5000.0, MeshLevel::Third);

    assert!(meshes.len() > 0);
    assert!(meshes.iter().all(|m| m.level() == MeshLevel::Third));
}

#[test]
fn test_mesh_from_string() {
    let mesh = MeshCode::from_str("53394611").unwrap();
    let nearby = radius_codes_from_mesh(mesh, 2000.0);

    assert!(nearby.contains(&mesh));
    assert!(nearby.len() > 1);
}

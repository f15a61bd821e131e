//! Cell rectangle, center and containment, as operations on mesh codes.

use vstd::prelude::*;

verus! {

use crate::bounding_box::{box_contains, BoundingBox};
use crate::convert::{mesh_to_bounds, mesh_to_center};
use crate::coordinate::Coordinate;
use crate::grid::{decode_center, decode_sw, lat_size, lon_size};
use crate::mesh_code::MeshCode;

/// The cell rectangle a mesh code denotes.
pub fn bounds(mesh: MeshCode) -> (r: BoundingBox)
    ensures
        r.spec_south_west().spec_lat() == decode_sw(mesh.spec_level(), mesh.spec_code() as int).0,
        r.spec_south_west().spec_lon() == decode_sw(mesh.spec_level(), mesh.spec_code() as int).1,
        r.spec_north_east().spec_lat() == decode_sw(mesh.spec_level(), mesh.spec_code() as int).0
            + lat_size(mesh.spec_level()),
        r.spec_north_east().spec_lon() == decode_sw(mesh.spec_level(), mesh.spec_code() as int).1
            + lon_size(mesh.spec_level()),
{
    mesh_to_bounds(mesh)
}

/// The center of the cell a mesh code denotes.
pub fn center(mesh: MeshCode) -> (r: Coordinate)
    ensures
        r.spec_lat() == decode_center(mesh.spec_level(), mesh.spec_code() as int).0,
        r.spec_lon() == decode_center(mesh.spec_level(), mesh.spec_code() as int).1,
{
    mesh_to_center(mesh)
}

/// Whether a coordinate lies in the closed cell rectangle of a mesh code.
pub fn contains(mesh: MeshCode, coord: Coordinate) -> (r: bool)
    ensures
        r == box_contains(
            decode_sw(mesh.spec_level(), mesh.spec_code() as int).0,
            decode_sw(mesh.spec_level(), mesh.spec_code() as int).0 + lat_size(mesh.spec_level()),
            decode_sw(mesh.spec_level(), mesh.spec_code() as int).1,
            decode_sw(mesh.spec_level(), mesh.spec_code() as int).1 + lon_size(mesh.spec_level()),
            coord.spec_lat() as int,
            coord.spec_lon() as int,
        ),
{
    let bbox = bounds(mesh);
    bbox.contains(coord)
}

} // verus!

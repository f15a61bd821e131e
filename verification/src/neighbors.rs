//! Adjacent cells in the eight compass directions.

use vstd::prelude::*;

verus! {

use crate::convert::mesh_to_center;
use crate::direction::{spec_offset, Direction};
use crate::grid::{
    decode_center,
    ENVELOPE_LAT_MAX,
    ENVELOPE_LAT_MIN,
    ENVELOPE_LON_MAX,
    ENVELOPE_LON_MIN,
    encode_spec,
    in_envelope,
    lat_size,
    lemma_encode_bounds,
    lon_size,
};
use crate::mesh_code::MeshCode;

/// The point one cell step away from a cell's center in a given direction.
pub open spec fn neighbor_point(m: MeshCode, d: Direction) -> (int, int) {
    (
        decode_center(m.spec_level(), m.spec_code() as int).0 + spec_offset(d).1 * lat_size(
            m.spec_level(),
        ),
        decode_center(m.spec_level(), m.spec_code() as int).1 + spec_offset(d).0 * lon_size(
            m.spec_level(),
        ),
    )
}

/// Whether the stepped point still lies in the supported envelope, which is
/// exactly when the neighbor is defined.
pub open spec fn neighbor_defined(m: MeshCode, d: Direction) -> bool {
    in_envelope(neighbor_point(m, d).0, neighbor_point(m, d).1)
}

/// The code of the cell containing the stepped point.
pub open spec fn neighbor_code(m: MeshCode, d: Direction) -> int {
    encode_spec(neighbor_point(m, d).0, neighbor_point(m, d).1, m.spec_level())
}

/// The cell one step away in a direction, at the same level: the cell's
/// center is shifted by one cell extent on each stepped axis and re-encoded.
/// Steps leaving the supported envelope yield nothing.
pub fn neighbor(mesh: MeshCode, direction: Direction) -> (r: Option<MeshCode>)
    ensures
        !neighbor_defined(mesh, direction) ==> r is None,
        neighbor_defined(mesh, direction) ==> (r matches Some(n) && n.spec_level()
            == mesh.spec_level() && n.spec_code() == neighbor_code(mesh, direction)),
{
    let center = mesh_to_center(mesh);
    let level = mesh.level();
    let (dx, dy) = direction.offset();
    proof {
        use_type_invariant(&center);
    }
    let nlat = center.lat() + (dy as i64) * level.lat_size_units();
    let nlon = center.lon() + (dx as i64) * level.lon_size_units();
    if nlat < ENVELOPE_LAT_MIN || nlat > ENVELOPE_LAT_MAX || nlon < ENVELOPE_LON_MIN || nlon
        > ENVELOPE_LON_MAX {
        return None;
    }
    proof {
        lemma_encode_bounds(nlat as int, nlon as int, level);
    }
    let code = crate::convert::coord_to_mesh_units(nlat, nlon, level);
    Some(code)
}

/// One entry when the neighbor in a direction is defined, none otherwise.
pub open spec fn dir_codes(m: MeshCode, d: Direction) -> Seq<int> {
    if neighbor_defined(m, d) {
        seq![neighbor_code(m, d)]
    } else {
        Seq::empty()
    }
}

/// The codes of all defined neighbors, in the fixed order N, NE, E, SE, S,
/// SW, W, NW.
pub open spec fn neighbor_codes(m: MeshCode) -> Seq<int> {
    dir_codes(m, Direction::North) + dir_codes(m, Direction::NorthEast) + dir_codes(
        m,
        Direction::East,
    ) + dir_codes(m, Direction::SouthEast) + dir_codes(m, Direction::South) + dir_codes(
        m,
        Direction::SouthWest,
    ) + dir_codes(m, Direction::West) + dir_codes(m, Direction::NorthWest)
}

/// Appends the neighbor in one direction, when it is defined.
fn push_neighbor(out: &mut Vec<MeshCode>, mesh: MeshCode, d: Direction)
    ensures
        old(out)@.len() <= final(out)@.len() <= old(out)@.len() + 1,
        forall|i: int| 0 <= i < old(out)@.len() ==> final(out)@[i] == old(out)@[i],
        forall|i: int|
            old(out)@.len() <= i < final(out)@.len() ==> (#[trigger] final(out)@[i]).spec_level()
                == mesh.spec_level(),
        final(out)@.map_values(|n: MeshCode| n.spec_code() as int) == old(out)@.map_values(
            |n: MeshCode| n.spec_code() as int,
        ) + dir_codes(mesh, d),
{
    let ghost f = |n: MeshCode| n.spec_code() as int;
    if let Some(n) = neighbor(mesh, d) {
        out.push(n);
    }
    proof {
        assert(out@.map_values(f) =~= old(out)@.map_values(f) + dir_codes(mesh, d));
    }
}

/// All defined neighbors of a cell, in the fixed order N, NE, E, SE, S, SW,
/// W, NW; cells at the envelope edge have fewer than eight.
pub fn neighbors(mesh: MeshCode) -> (r: Vec<MeshCode>)
    ensures
        r@.map_values(|n: MeshCode| n.spec_code() as int) == neighbor_codes(mesh),
        forall|i: int| 0 <= i < r@.len() ==> (#[trigger] r@[i]).spec_level() == mesh.spec_level(),
        r@.len() <= 8,
{
    let ghost f = |n: MeshCode| n.spec_code() as int;
    let mut out: Vec<MeshCode> = Vec::new();
    proof {
        assert(out@.map_values(f) =~= Seq::<int>::empty());
    }
    push_neighbor(&mut out, mesh, Direction::North);
    push_neighbor(&mut out, mesh, Direction::NorthEast);
    push_neighbor(&mut out, mesh, Direction::East);
    push_neighbor(&mut out, mesh, Direction::SouthEast);
    push_neighbor(&mut out, mesh, Direction::South);
    push_neighbor(&mut out, mesh, Direction::SouthWest);
    push_neighbor(&mut out, mesh, Direction::West);
    push_neighbor(&mut out, mesh, Direction::NorthWest);
    proof {
        assert(out@.map_values(f) =~= neighbor_codes(mesh));
    }
    out
}

} // verus!

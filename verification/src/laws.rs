//! The library-level laws: round-trip containment, hierarchy inversion,
//! exact cell extents, and neighbor adjacency.

use vstd::prelude::*;

verus! {

use crate::arith::lemma_multiple_plus_small_div;
use crate::bounding_box::box_contains;
use crate::coordinate::Coordinate;
use crate::direction::{spec_offset, spec_opposite, Direction};
use crate::grid::{
    decode_center,
    decode_sw,
    encode_spec,
    in_envelope,
    lat_size,
    lemma_encode_contains,
    lemma_encode_sw,
    lemma_size_facts,
    lon_size,
    pow10,
    UNITS_PER_DEGREE,
};
use crate::error::MeshCodeError;
use crate::level::{level_len, level_parent, MeshLevel};
use crate::mesh_code::{
    all_digits,
    code_chars,
    lemma_code_chars_value,
    seq_to_num,
    MeshCode,
};
use crate::neighbors::{neighbor_code, neighbor_defined, neighbor_point};

/// Round-trip containment: for every coordinate within the supported
/// envelope and every level, the decoded cell rectangle of the encoded code
/// contains the coordinate.
///
/// The premises are exactly what `coord_to_mesh` ensures of its result, and
/// the conclusion speaks of the rectangle `mesh_to_bounds` returns. The one
/// excluded input is the north-east most Level 5 sub-cell of a Level 3 cell,
/// whose index does not fit its two code digits.
pub proof fn lemma_round_trip_containment(c: Coordinate, m: MeshCode, l: MeshLevel)
    requires
        in_envelope(c.spec_lat() as int, c.spec_lon() as int),
        m.spec_level() == l,
        m.spec_code() == encode_spec(c.spec_lat() as int, c.spec_lon() as int, l),
        l == MeshLevel::Fifth ==> !((c.spec_lat() as int / 10_000) % 10 == 9 && (c.spec_lon() as int
            / 15_000) % 10 == 9),
    ensures
        box_contains(
            decode_sw(l, m.spec_code() as int).0,
            decode_sw(l, m.spec_code() as int).0 + lat_size(l),
            decode_sw(l, m.spec_code() as int).1,
            decode_sw(l, m.spec_code() as int).1 + lon_size(l),
            c.spec_lat() as int,
            c.spec_lon() as int,
        ),
{
    lemma_encode_contains(c.spec_lat() as int, c.spec_lon() as int, l);
}

/// Exact cell extents: a Level 1 cell spans 40/60 of a degree of latitude
/// and one degree of longitude; a Level 3 cell spans 30/3600 by 45/3600 of a
/// degree; a Level 5 cell spans 3/3600 by 4.5/3600 of a degree. The angle
/// units make these ratios exact, with no tolerance.
pub proof fn lemma_cell_sizes()
    ensures
        lat_size(MeshLevel::First) * 60 == 40 * UNITS_PER_DEGREE,
        lon_size(MeshLevel::First) == UNITS_PER_DEGREE,
        lat_size(MeshLevel::Third) * 3600 == 30 * UNITS_PER_DEGREE,
        lon_size(MeshLevel::Third) * 3600 == 45 * UNITS_PER_DEGREE,
        lat_size(MeshLevel::Fifth) * 3600 == 3 * UNITS_PER_DEGREE,
        lon_size(MeshLevel::Fifth) * 7200 == 9 * UNITS_PER_DEGREE,
{
}

/// Hierarchy inversion: the parent of any cell produced by `children` is
/// the original cell.
///
/// The first premise group is what `children` ensures of each element for
/// the three subdividable levels; the second is what `parent` ensures of its
/// result on such an element.
pub proof fn lemma_children_parent(m: MeshCode, child: MeshCode, p: MeshCode)
    requires
        (m.spec_level() == MeshLevel::First && child.spec_level() == MeshLevel::Second
            && child.spec_code() as int / 100 == m.spec_code()) || (m.spec_level()
            == MeshLevel::Second && child.spec_level() == MeshLevel::Third
            && child.spec_code() as int / 100 == m.spec_code()) || (m.spec_level()
            == MeshLevel::Third && child.spec_level() == MeshLevel::FourthHalf
            && child.spec_code() as int / 10 == m.spec_code()),
        level_parent(child.spec_level()) == Some(p.spec_level()),
        p.spec_code() == child.spec_code() as int / pow10(
            (level_len(child.spec_level()) - level_len(p.spec_level())) as nat,
        ) as int,
    ensures
        p == m,
{
    assert(pow10(2) == 100 && pow10(1) == 10) by {
        reveal_with_fuel(pow10, 3);
    }
    MeshCode::lemma_fields_determine(p, m);
}

/// Encoding is constant on a cell: the center of the cell containing an
/// in-envelope point encodes back to the same code.
pub proof fn lemma_center_reencodes(lat: int, lon: int, l: MeshLevel)
    requires
        in_envelope(lat, lon),
        l == MeshLevel::Fifth ==> !((lat / 10_000) % 10 == 9 && (lon / 15_000) % 10 == 9),
    ensures
        encode_spec(
            decode_center(l, encode_spec(lat, lon, l)).0,
            decode_center(l, encode_spec(lat, lon, l)).1,
            l,
        ) == encode_spec(lat, lon, l),
{
    let dl = lat_size(l);
    let dn = lon_size(l);
    lemma_encode_sw(lat, lon, l);
    lemma_size_facts(l);
    lemma_multiple_plus_small_div(lat / dl, dl, dl / 2);
    lemma_multiple_plus_small_div(lon / dn, dn, dn / 2);
    let clat = decode_center(l, encode_spec(lat, lon, l)).0;
    let clon = decode_center(l, encode_spec(lat, lon, l)).1;
    assert(clat / dl == lat / dl && clon / dn == lon / dn);
    match l {
        MeshLevel::First => {},
        MeshLevel::Second => {},
        MeshLevel::Third => {},
        MeshLevel::FourthHalf => {},
        MeshLevel::FourthQuarter => {},
        MeshLevel::FourthEighth => {},
        MeshLevel::Fifth => {},
    }
}

/// Canonical string faithfulness: the zero-padded decimal digits of any
/// code are all digits and denote the code's own numeric value; and for the
/// levels whose digit count is unambiguous, those digits re-classify to the
/// code's own level, so parsing the canonical string form reproduces the
/// code. (Ten-digit strings are classified by their ninth digit, so a
/// quarter mesh whose sub-cell index is below ten parses as Level 5.)
pub proof fn lemma_canonical_string(m: MeshCode)
    requires
        m.inv(),
    ensures
        all_digits(code_chars(m.spec_code() as int, level_len(m.spec_level()) as nat)),
        seq_to_num(code_chars(m.spec_code() as int, level_len(m.spec_level()) as nat))
            == m.spec_code(),
        level_len(m.spec_level()) != 10 ==> MeshLevel::spec_from_code_string(
            code_chars(m.spec_code() as int, level_len(m.spec_level()) as nat),
        ) == Ok::<MeshLevel, MeshCodeError>(m.spec_level()),
{
    lemma_code_chars_value(m.spec_code() as int, level_len(m.spec_level()) as nat);
    match m.spec_level() {
        MeshLevel::First => {},
        MeshLevel::Second => {},
        MeshLevel::Third => {},
        MeshLevel::FourthHalf => {},
        MeshLevel::FourthQuarter => {},
        MeshLevel::FourthEighth => {},
        MeshLevel::Fifth => {},
    }
}

/// Stepping the opposite way undoes a step.
pub proof fn lemma_offset_opposite(d: Direction)
    ensures
        spec_offset(spec_opposite(d)).0 == -spec_offset(d).0,
        spec_offset(spec_opposite(d)).1 == -spec_offset(d).1,
{
    match d {
        Direction::North => {},
        Direction::NorthEast => {},
        Direction::East => {},
        Direction::SouthEast => {},
        Direction::South => {},
        Direction::SouthWest => {},
        Direction::West => {},
        Direction::NorthWest => {},
    }
}

/// Adjacency consistency: when a cell whose center re-encodes to its own
/// code has a defined neighbor, stepping back from that neighbor in the
/// opposite direction is defined and returns the original code; and the
/// neighbor's rectangle corner is the original corner shifted by exactly one
/// cell extent per stepped axis, so cells that abut share their boundary
/// line.
///
/// The premises on `n` are what `neighbor` ensures of its result; for
/// Level 5, points falling in the north-east most sub-cell of a Level 3 cell
/// are excluded, as in the round-trip law.
pub proof fn lemma_neighbor_inverse(m: MeshCode, n: MeshCode, d: Direction)
    requires
        encode_spec(
            decode_center(m.spec_level(), m.spec_code() as int).0,
            decode_center(m.spec_level(), m.spec_code() as int).1,
            m.spec_level(),
        ) == m.spec_code(),
        in_envelope(
            decode_center(m.spec_level(), m.spec_code() as int).0,
            decode_center(m.spec_level(), m.spec_code() as int).1,
        ),
        neighbor_defined(m, d),
        n.spec_level() == m.spec_level(),
        n.spec_code() == neighbor_code(m, d),
        m.spec_level() == MeshLevel::Fifth ==> !((decode_center(
            m.spec_level(),
            m.spec_code() as int,
        ).0 / 10_000) % 10 == 9 && (decode_center(m.spec_level(), m.spec_code() as int).1 / 15_000)
            % 10 == 9),
        m.spec_level() == MeshLevel::Fifth ==> !((neighbor_point(m, d).0 / 10_000) % 10 == 9 && (
        neighbor_point(m, d).1 / 15_000) % 10 == 9),
    ensures
        neighbor_defined(n, spec_opposite(d)),
        neighbor_code(n, spec_opposite(d)) == m.spec_code(),
        decode_sw(m.spec_level(), n.spec_code() as int).0 == decode_sw(
            m.spec_level(),
            m.spec_code() as int,
        ).0 + spec_offset(d).1 * lat_size(m.spec_level()),
        decode_sw(m.spec_level(), n.spec_code() as int).1 == decode_sw(
            m.spec_level(),
            m.spec_code() as int,
        ).1 + spec_offset(d).0 * lon_size(m.spec_level()),
{
    let l = m.spec_level();
    let c = m.spec_code() as int;
    let clat = decode_center(l, c).0;
    let clon = decode_center(l, c).1;
    let dx = spec_offset(d).0;
    let dy = spec_offset(d).1;
    let dl = lat_size(l);
    let dn = lon_size(l);
    let nlat = neighbor_point(m, d).0;
    let nlon = neighbor_point(m, d).1;
    lemma_size_facts(l);
    lemma_offset_opposite(d);
    lemma_encode_sw(clat, clon, l);
    let q = clat / dl;
    let p = clon / dn;
    assert(decode_sw(l, c).0 == q * dl && decode_sw(l, c).1 == p * dn);
    assert(clat == q * dl + dl / 2 && clon == p * dn + dn / 2);
    assert(nlat == (q + dy) * dl + dl / 2 && nlon == (p + dx) * dn + dn / 2) by (nonlinear_arith)
        requires
            clat == q * dl + dl / 2,
            clon == p * dn + dn / 2,
            nlat == clat + dy * dl,
            nlon == clon + dx * dn,
    ;
    lemma_multiple_plus_small_div(q + dy, dl, dl / 2);
    lemma_multiple_plus_small_div(p + dx, dn, dn / 2);
    assert(nlat / dl == q + dy && nlon / dn == p + dx);
    lemma_encode_sw(nlat, nlon, l);
    assert(decode_sw(l, n.spec_code() as int).0 == (q + dy) * dl && decode_sw(
        l,
        n.spec_code() as int,
    ).1 == (p + dx) * dn);
    assert((q + dy) * dl == q * dl + dy * dl && (p + dx) * dn == p * dn + dx * dn)
        by (nonlinear_arith);
    assert(decode_center(l, n.spec_code() as int).0 == nlat && decode_center(
        l,
        n.spec_code() as int,
    ).1 == nlon);
    assert(neighbor_point(n, spec_opposite(d)).0 == clat && neighbor_point(
        n,
        spec_opposite(d),
    ).1 == clon) by (nonlinear_arith)
        requires
            neighbor_point(n, spec_opposite(d)).0 == nlat + -dy * dl,
            neighbor_point(n, spec_opposite(d)).1 == nlon + -dx * dn,
            nlat == clat + dy * dl,
            nlon == clon + dx * dn,
    ;
}

} // verus!

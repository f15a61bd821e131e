//! Executable conversion between coordinates and mesh codes.

use vstd::prelude::*;

verus! {

use crate::arith::{lemma_div_range, lemma_index_split};
use crate::bounding_box::BoundingBox;
use crate::coordinate::Coordinate;
use crate::error::MeshCodeError;
use crate::grid::{
    code3,
    ENVELOPE_LAT_MAX,
    ENVELOPE_LAT_MIN,
    ENVELOPE_LON_MAX,
    ENVELOPE_LON_MIN,
    decode_center,
    decode_sw,
    encode_spec,
    in_envelope,
    lat_size,
    lemma_encode_bounds,
    lemma_l1,
    lemma_l3,
    lemma_size_facts,
    lon_size,
    pow10,
    sw3,
};
use crate::level::{level_len, MeshLevel};
use crate::mesh_code::MeshCode;
use vstd::arithmetic::div_mod::{
    lemma_fundamental_div_mod_converse,
    lemma_mod_bound,
};

/// Level 3 code of the cell containing an in-envelope point.
fn encode3_units(lat: i64, lon: i64) -> (r: u64)
    requires
        in_envelope(lat as int, lon as int),
    ensures
        r == code3(lat as int / 100_000, lon as int / 150_000),
        30220000 <= r <= 69547999,
{
    let li = lat as u64;
    let oi = lon as u64;
    proof {
        lemma_l1(lat as int, lon as int);
        lemma_l3(lat as int, lon as int);
        lemma_index_split(lat as int, 100_000, 10);
        lemma_index_split(lon as int, 150_000, 10);
        lemma_index_split(lat as int, 1_000_000, 8);
        lemma_index_split(lon as int, 1_500_000, 8);
        assert(100_000int * 10 == 1_000_000);
        assert(150_000int * 10 == 1_500_000);
        assert(1_000_000int * 8 == 8_000_000);
        assert(1_500_000int * 8 == 12_000_000);
    }
    let a = li / 100_000;
    let b = oi / 150_000;
    let a2 = a / 10;
    let b2 = b / 10;
    let f = (a2 / 8) * 100 + b2 / 8 - 100;
    let s = f * 100 + (a2 % 8) * 10 + b2 % 8;
    s * 100 + (a % 10) * 10 + b % 10
}

/// Code of the cell containing an in-envelope point, at a given level.
fn encode_units(lat: i64, lon: i64, level: MeshLevel) -> (r: u64)
    requires
        in_envelope(lat as int, lon as int),
    ensures
        r == encode_spec(lat as int, lon as int, level),
        1000 <= r < pow10(level_len(level) as nat),
{
    proof {
        lemma_encode_bounds(lat as int, lon as int, level);
    }
    let li = lat as u64;
    let oi = lon as u64;
    match level {
        MeshLevel::First => {
            proof {
                lemma_l1(lat as int, lon as int);
            }
            let a = li / 8_000_000;
            let b = oi / 12_000_000;
            a * 100 + b - 100
        },
        MeshLevel::Second => {
            proof {
                lemma_l1(lat as int, lon as int);
                lemma_index_split(lat as int, 1_000_000, 8);
                lemma_index_split(lon as int, 1_500_000, 8);
                assert(1_000_000int * 8 == 8_000_000);
                assert(1_500_000int * 8 == 12_000_000);
            }
            let a = li / 1_000_000;
            let b = oi / 1_500_000;
            let f = (a / 8) * 100 + b / 8 - 100;
            f * 100 + (a % 8) * 10 + b % 8
        },
        MeshLevel::Third => encode3_units(lat, lon),
        MeshLevel::FourthHalf => {
            proof {
                lemma_index_split(lat as int, 50_000, 2);
                lemma_index_split(lon as int, 75_000, 2);
                assert(50_000int * 2 == 100_000);
                assert(75_000int * 2 == 150_000);
            }
            let c3 = encode3_units(lat, lon);
            let a = li / 50_000;
            let b = oi / 75_000;
            let idx: u64 = if a % 2 == 1 {
                if b % 2 == 1 {
                    1
                } else {
                    3
                }
            } else {
                if b % 2 == 1 {
                    2
                } else {
                    4
                }
            };
            c3 * 10 + idx
        },
        MeshLevel::FourthQuarter => {
            proof {
                lemma_index_split(lat as int, 25_000, 4);
                lemma_index_split(lon as int, 37_500, 4);
                assert(25_000int * 4 == 100_000);
                assert(37_500int * 4 == 150_000);
            }
            let c3 = encode3_units(lat, lon);
            let a = li / 25_000;
            let b = oi / 37_500;
            c3 * 100 + (a % 4) * 4 + b % 4 + 1
        },
        MeshLevel::FourthEighth => {
            proof {
                lemma_index_split(lat as int, 12_500, 8);
                lemma_index_split(lon as int, 18_750, 8);
                assert(12_500int * 8 == 100_000);
                assert(18_750int * 8 == 150_000);
            }
            let c3 = encode3_units(lat, lon);
            let a = li / 12_500;
            let b = oi / 18_750;
            c3 * 1000 + (a % 8) * 8 + b % 8 + 1
        },
        MeshLevel::Fifth => {
            proof {
                lemma_index_split(lat as int, 10_000, 10);
                lemma_index_split(lon as int, 15_000, 10);
                assert(10_000int * 10 == 100_000);
                assert(15_000int * 10 == 150_000);
            }
            let c3 = encode3_units(lat, lon);
            let a = li / 10_000;
            let b = oi / 15_000;
            c3 * 100 + (a % 10) * 10 + b % 10 + 1
        },
    }
}

/// The mesh code of the cell containing an in-envelope point given in angle
/// units.
pub(crate) fn coord_to_mesh_units(lat: i64, lon: i64, level: MeshLevel) -> (m: MeshCode)
    requires
        in_envelope(lat as int, lon as int),
    ensures
        m.spec_level() == level,
        m.spec_code() == encode_spec(lat as int, lon as int, level),
{
    let code = encode_units(lat, lon, level);
    MeshCode::from_parts(level, code)
}

/// The mesh code of the cell containing a coordinate, at a given level.
///
/// Succeeds exactly when the coordinate lies within the supported envelope;
/// points outside it are rejected as out of range.
pub fn coord_to_mesh(coord: Coordinate, level: MeshLevel) -> (r: Result<MeshCode, MeshCodeError>)
    ensures
        in_envelope(coord.spec_lat() as int, coord.spec_lon() as int) ==> (r matches Ok(m)
            && m.spec_level() == level && m.spec_code() == encode_spec(
            coord.spec_lat() as int,
            coord.spec_lon() as int,
            level,
        )),
        !in_envelope(coord.spec_lat() as int, coord.spec_lon() as int) ==> r == Err::<
            MeshCode,
            MeshCodeError,
        >(MeshCodeError::OutOfRange),
{
    let lat = coord.lat();
    let lon = coord.lon();
    if lat < ENVELOPE_LAT_MIN || lat > ENVELOPE_LAT_MAX || lon < ENVELOPE_LON_MIN || lon
        > ENVELOPE_LON_MAX {
        return Err(MeshCodeError::OutOfRange);
    }
    let code = encode_units(lat, lon, level);
    Ok(MeshCode::from_parts(level, code))
}

/// South-west corner of a Level 3 cell, in angle units, from any code of at
/// most eight digits.
fn sw3_units(c: u64) -> (r: (i64, i64))
    requires
        c < 100_000_000,
    ensures
        r.0 == sw3(c as int).0,
        r.1 == sw3(c as int).1,
        0 <= r.0 <= 810_000_000,
        1_200_000_000 <= r.1 <= 2_410_000_000,
{
    proof {
        lemma_div_range(c as int, 100, 0, 1_000_000);
        lemma_div_range(c as int / 100, 100, 0, 10_000);
        lemma_div_range(c as int / 100 / 100, 100, 0, 100);
        lemma_mod_bound(c as int, 100);
        lemma_mod_bound(c as int, 10);
        lemma_mod_bound(c as int / 100, 100);
        lemma_mod_bound(c as int / 100, 10);
        lemma_mod_bound(c as int / 100 / 100, 100);
        lemma_div_range(c as int % 100, 10, 0, 10);
        lemma_div_range(c as int / 100 % 100, 10, 0, 10);
    }
    let x2 = c / 100;
    let x1 = x2 / 100;
    let lat = (x1 / 100) * 8_000_000 + (x2 % 100 / 10) * 1_000_000 + (c % 100 / 10) * 100_000;
    let lon = (x1 % 100 + 100) * 12_000_000 + (x2 % 10) * 1_500_000 + (c % 10) * 150_000;
    ((lat as i64), (lon as i64))
}

/// The cell rectangle a mesh code denotes: its south-west corner and the
/// corner one cell extent to the north-east.
pub fn mesh_to_bounds(mesh: MeshCode) -> (r: BoundingBox)
    ensures
        r.spec_south_west().spec_lat() == decode_sw(mesh.spec_level(), mesh.spec_code() as int).0,
        r.spec_south_west().spec_lon() == decode_sw(mesh.spec_level(), mesh.spec_code() as int).1,
        r.spec_north_east().spec_lat() == decode_sw(mesh.spec_level(), mesh.spec_code() as int).0
            + lat_size(mesh.spec_level()),
        r.spec_north_east().spec_lon() == decode_sw(mesh.spec_level(), mesh.spec_code() as int).1
            + lon_size(mesh.spec_level()),
{
    proof {
        use_type_invariant(&mesh);
        assert(pow10(4) == 10000 && pow10(6) == 1000000 && pow10(8) == 100000000 && pow10(9)
            == 1000000000 && pow10(10) == 10000000000 && pow10(11) == 100000000000) by {
            reveal_with_fuel(pow10, 12);
        }
    }
    let level = mesh.level();
    let code = mesh.code();
    let (sw_lat, sw_lon): (i64, i64) = match level {
        MeshLevel::First => {
            proof {
                lemma_div_range(code as int, 100, 0, 100);
                lemma_mod_bound(code as int, 100);
            }
            let lat = (code / 100) * 8_000_000;
            let lon = (code % 100 + 100) * 12_000_000;
            ((lat as i64), (lon as i64))
        },
        MeshLevel::Second => {
            proof {
                lemma_div_range(code as int, 100, 0, 10_000);
                lemma_div_range(code as int / 100, 100, 0, 100);
                lemma_mod_bound(code as int, 100);
                lemma_mod_bound(code as int, 10);
                lemma_mod_bound(code as int / 100, 100);
                lemma_div_range(code as int % 100, 10, 0, 10);
            }
            let x1 = code / 100;
            let lat = (x1 / 100) * 8_000_000 + (code % 100 / 10) * 1_000_000;
            let lon = (x1 % 100 + 100) * 12_000_000 + (code % 10) * 1_500_000;
            ((lat as i64), (lon as i64))
        },
        MeshLevel::Third => sw3_units(code),
        MeshLevel::FourthHalf => {
            proof {
                lemma_div_range(code as int, 10, 0, 100_000_000);
                lemma_mod_bound(code as int, 10);
            }
            let (lat3, lon3) = sw3_units(code / 10);
            let d = code % 10;
            if d == 1 {
                (lat3 + 50_000, lon3 + 75_000)
            } else if d == 2 {
                (lat3, lon3 + 75_000)
            } else if d == 3 {
                (lat3 + 50_000, lon3)
            } else {
                (lat3, lon3)
            }
        },
        MeshLevel::FourthQuarter => {
            proof {
                lemma_div_range(code as int, 100, 0, 100_000_000);
                lemma_mod_bound(code as int, 100);
                if code as int % 100 >= 1 {
                    lemma_div_range(code as int % 100 - 1, 4, 0, 25);
                    lemma_mod_bound(code as int % 100 - 1, 4);
                }
            }
            let (lat3, lon3) = sw3_units(code / 100);
            let idx = code % 100;
            if idx == 0 {
                (lat3, lon3 - 37_500)
            } else {
                let k = idx - 1;
                (lat3 + ((k / 4) * 25_000) as i64, lon3 + ((k % 4) * 37_500) as i64)
            }
        },
        MeshLevel::FourthEighth => {
            proof {
                lemma_div_range(code as int, 1000, 0, 100_000_000);
                lemma_mod_bound(code as int, 1000);
                if code as int % 1000 >= 1 {
                    lemma_div_range(code as int % 1000 - 1, 8, 0, 125);
                    lemma_mod_bound(code as int % 1000 - 1, 8);
                }
            }
            let (lat3, lon3) = sw3_units(code / 1000);
            let idx = code % 1000;
            if idx == 0 {
                (lat3, lon3 - 18_750)
            } else {
                let k = idx - 1;
                (lat3 + ((k / 8) * 12_500) as i64, lon3 + ((k % 8) * 18_750) as i64)
            }
        },
        MeshLevel::Fifth => {
            proof {
                lemma_div_range(code as int, 100, 0, 100_000_000);
                lemma_mod_bound(code as int, 100);
                if code as int % 100 >= 1 {
                    lemma_div_range(code as int % 100 - 1, 10, 0, 10);
                    lemma_mod_bound(code as int % 100 - 1, 10);
                }
            }
            let (lat3, lon3) = sw3_units(code / 100);
            let idx = code % 100;
            if idx == 0 {
                (lat3, lon3 - 15_000)
            } else {
                let k = idx - 1;
                (lat3 + ((k / 10) * 10_000) as i64, lon3 + ((k % 10) * 15_000) as i64)
            }
        },
    };
    let sw = Coordinate::new_unchecked(sw_lat, sw_lon);
    let ne = Coordinate::new_unchecked(
        sw_lat + level.lat_size_units(),
        sw_lon + level.lon_size_units(),
    );
    BoundingBox::new(sw, ne)
}

/// The center of the cell a mesh code denotes.
pub fn mesh_to_center(mesh: MeshCode) -> (r: Coordinate)
    ensures
        r.spec_lat() == decode_center(mesh.spec_level(), mesh.spec_code() as int).0,
        r.spec_lon() == decode_center(mesh.spec_level(), mesh.spec_code() as int).1,
{
    let b = mesh_to_bounds(mesh);
    let r = b.center();
    proof {
        let l = mesh.spec_level();
        let swla = decode_sw(l, mesh.spec_code() as int).0;
        let swlo = decode_sw(l, mesh.spec_code() as int).1;
        lemma_size_facts(l);
        lemma_fundamental_div_mod_converse(
            swla + (swla + lat_size(l)),
            2,
            swla + lat_size(l) / 2,
            0,
        );
        lemma_fundamental_div_mod_converse(
            swlo + (swlo + lon_size(l)),
            2,
            swlo + lon_size(l) / 2,
            0,
        );
    }
    r
}

} // verus!

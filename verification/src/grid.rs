//! The mathematical model of the mesh grid.
//!
//! Angles are measured in integer units of 1/12,000,000 of a degree. That
//! denominator is divisible by every cell size and half-cell size of the seven
//! levels, and by 10^6, so both cell corners and micro-degree inputs are
//! represented exactly.

use vstd::prelude::*;

verus! {

use crate::level::MeshLevel;

/// Angle units per degree.
pub const UNITS_PER_DEGREE: i64 = 12_000_000;

/// Angle units per micro-degree.
pub const UNITS_PER_MICRO_DEGREE: i64 = 12;

/// Largest magnitude, in angle units, that a coordinate may carry (360°).
pub const MAX_ABS_UNITS: i64 = 4_320_000_000;

/// Lowest supported latitude, in angle units (20°).
pub const ENVELOPE_LAT_MIN: i64 = 240_000_000;

/// Highest supported latitude, in angle units (46°).
pub const ENVELOPE_LAT_MAX: i64 = 552_000_000;

/// Lowest supported longitude, in angle units (122°).
pub const ENVELOPE_LON_MIN: i64 = 1_464_000_000;

/// Highest supported longitude, in angle units (154°).
pub const ENVELOPE_LON_MAX: i64 = 1_848_000_000;

/// Latitude extent of one cell at each level, in angle units.
///
/// Level 1 spans 2/3°, and each finer level divides its parent by the scheme's
/// subdivision factor (8, 10, then 2, 4, 8 or 10 on the Level 3 cell).
pub open spec fn lat_size(l: MeshLevel) -> int {
    match l {
        MeshLevel::First => 8_000_000,
        MeshLevel::Second => 1_000_000,
        MeshLevel::Third => 100_000,
        MeshLevel::FourthHalf => 50_000,
        MeshLevel::FourthQuarter => 25_000,
        MeshLevel::FourthEighth => 12_500,
        MeshLevel::Fifth => 10_000,
    }
}

/// Longitude extent of one cell at each level, in angle units (Level 1: 1°).
pub open spec fn lon_size(l: MeshLevel) -> int {
    match l {
        MeshLevel::First => 12_000_000,
        MeshLevel::Second => 1_500_000,
        MeshLevel::Third => 150_000,
        MeshLevel::FourthHalf => 75_000,
        MeshLevel::FourthQuarter => 37_500,
        MeshLevel::FourthEighth => 18_750,
        MeshLevel::Fifth => 15_000,
    }
}

/// Whether a point lies within the supported geographic envelope.
pub open spec fn in_envelope(lat: int, lon: int) -> bool {
    ENVELOPE_LAT_MIN <= lat <= ENVELOPE_LAT_MAX && ENVELOPE_LON_MIN <= lon <= ENVELOPE_LON_MAX
}

/// Whether a latitude lies within the global −90°..90° range.
pub open spec fn valid_lat(lat: int) -> bool {
    -90 * UNITS_PER_DEGREE <= lat <= 90 * UNITS_PER_DEGREE
}

/// Whether a longitude lies within the global −180°..180° range.
pub open spec fn valid_lon(lon: int) -> bool {
    -180 * UNITS_PER_DEGREE <= lon <= 180 * UNITS_PER_DEGREE
}

/// 10^n.
pub open spec fn pow10(n: nat) -> nat
    decreases n,
{
    if n == 0 {
        1
    } else {
        10 * pow10((n - 1) as nat)
    }
}

/// Level 1 code from the Level 1 cell indices: latitude index times 100 plus
/// longitude index minus 100 (the `p q r s` digit groups).
pub open spec fn code1(a: int, b: int) -> int {
    a * 100 + b - 100
}

/// Level 2 code from the Level 2 cell indices: the Level 1 code followed by
/// the two 0..7 subdivision digits.
pub open spec fn code2(a: int, b: int) -> int {
    code1(a / 8, b / 8) * 100 + (a % 8) * 10 + b % 8
}

/// Level 3 code from the Level 3 cell indices: the Level 2 code followed by
/// the two 0..9 subdivision digits.
pub open spec fn code3(a: int, b: int) -> int {
    code2(a / 10, b / 10) * 100 + (a % 10) * 10 + b % 10
}

/// Quadrant digit of the half mesh: NE=1, SE=2, NW=3, SW=4, from the 0/1
/// upper-half flags of latitude and longitude.
pub open spec fn half_index(i: int, j: int) -> int {
    if i == 1 {
        if j == 1 {
            1
        } else {
            3
        }
    } else {
        if j == 1 {
            2
        } else {
            4
        }
    }
}

/// Half mesh code: the Level 3 code followed by the quadrant digit.
pub open spec fn code4h(a: int, b: int) -> int {
    code3(a / 2, b / 2) * 10 + half_index(a % 2, b % 2)
}

/// Quarter mesh code: the Level 3 code followed by the 1..16 index of the 4×4
/// subdivision.
pub open spec fn code4q(a: int, b: int) -> int {
    code3(a / 4, b / 4) * 100 + (a % 4) * 4 + b % 4 + 1
}

/// Eighth mesh code: the Level 3 code followed by the 1..64 index of the 8×8
/// subdivision.
pub open spec fn code4e(a: int, b: int) -> int {
    code3(a / 8, b / 8) * 1000 + (a % 8) * 8 + b % 8 + 1
}

/// Level 5 code: the Level 3 code followed by the 1..100 index of the 10×10
/// subdivision.
pub open spec fn code5(a: int, b: int) -> int {
    code3(a / 10, b / 10) * 100 + (a % 10) * 10 + b % 10 + 1
}

/// The code of the cell containing a point, at a given level.
///
/// The point's cell indices at the level's own granularity determine the code
/// completely; coarser digit groups are recovered from them by division.
pub open spec fn encode_spec(lat: int, lon: int, l: MeshLevel) -> int {
    match l {
        MeshLevel::First => code1(lat / 8_000_000, lon / 12_000_000),
        MeshLevel::Second => code2(lat / 1_000_000, lon / 1_500_000),
        MeshLevel::Third => code3(lat / 100_000, lon / 150_000),
        MeshLevel::FourthHalf => code4h(lat / 50_000, lon / 75_000),
        MeshLevel::FourthQuarter => code4q(lat / 25_000, lon / 37_500),
        MeshLevel::FourthEighth => code4e(lat / 12_500, lon / 18_750),
        MeshLevel::Fifth => code5(lat / 10_000, lon / 15_000),
    }
}

/// Row/column offsets of a 1-based sub-cell index within a row-major grid of
/// width `row`. Index 0, which no encoder produces, mirrors the truncating
/// arithmetic of index−1: row 0, column −1.
pub open spec fn sub_offsets(idx: int, row: int) -> (int, int) {
    if idx == 0 {
        (0, -1)
    } else {
        ((idx - 1) / row, (idx - 1) % row)
    }
}

/// South-west corner of a Level 1 cell, from its code.
pub open spec fn sw1(c: int) -> (int, int) {
    ((c / 100) * 8_000_000, (c % 100 + 100) * 12_000_000)
}

/// South-west corner of a Level 2 cell, from its code.
pub open spec fn sw2(c: int) -> (int, int) {
    let (lat, lon) = sw1(c / 100);
    (lat + (c % 100 / 10) * 1_000_000, lon + (c % 10) * 1_500_000)
}

/// South-west corner of a Level 3 cell, from its code.
pub open spec fn sw3(c: int) -> (int, int) {
    let (lat, lon) = sw2(c / 100);
    (lat + (c % 100 / 10) * 100_000, lon + (c % 10) * 150_000)
}

/// South-west corner of a half mesh cell, from its code. Quadrant digits
/// other than 1, 2 or 3 place the corner at the Level 3 corner, as the SW
/// quadrant does.
pub open spec fn sw4h(c: int) -> (int, int) {
    let (lat, lon) = sw3(c / 10);
    let d = c % 10;
    if d == 1 {
        (lat + 50_000, lon + 75_000)
    } else if d == 2 {
        (lat, lon + 75_000)
    } else if d == 3 {
        (lat + 50_000, lon)
    } else {
        (lat, lon)
    }
}

/// South-west corner of a quarter mesh cell, from its code.
pub open spec fn sw4q(c: int) -> (int, int) {
    let (lat, lon) = sw3(c / 100);
    let (i, j) = sub_offsets(c % 100, 4);
    (lat + i * 25_000, lon + j * 37_500)
}

/// South-west corner of an eighth mesh cell, from its code.
pub open spec fn sw4e(c: int) -> (int, int) {
    let (lat, lon) = sw3(c / 1000);
    let (i, j) = sub_offsets(c % 1000, 8);
    (lat + i * 12_500, lon + j * 18_750)
}

/// South-west corner of a Level 5 cell, from its code.
pub open spec fn sw5(c: int) -> (int, int) {
    let (lat, lon) = sw3(c / 100);
    let (i, j) = sub_offsets(c % 100, 10);
    (lat + i * 10_000, lon + j * 15_000)
}

/// South-west corner of the cell a code denotes.
pub open spec fn decode_sw(l: MeshLevel, c: int) -> (int, int) {
    match l {
        MeshLevel::First => sw1(c),
        MeshLevel::Second => sw2(c),
        MeshLevel::Third => sw3(c),
        MeshLevel::FourthHalf => sw4h(c),
        MeshLevel::FourthQuarter => sw4q(c),
        MeshLevel::FourthEighth => sw4e(c),
        MeshLevel::Fifth => sw5(c),
    }
}

/// Center of the cell a code denotes: the south-west corner plus half the
/// cell extent on each axis.
pub open spec fn decode_center(l: MeshLevel, c: int) -> (int, int) {
    let (lat, lon) = decode_sw(l, c);
    (lat + lat_size(l) / 2, lon + lon_size(l) / 2)
}

use crate::arith::{lemma_digit_split, lemma_index_split, lemma_div_range, lemma_cell_contains};
use crate::level::level_len;
use vstd::arithmetic::div_mod::lemma_mod_bound;

/// Level 1 digit ranges and corner recovery for an in-envelope point.
pub proof fn lemma_l1(lat: int, lon: int)
    requires
        in_envelope(lat, lon),
    ensures
        30 <= lat / 8_000_000 <= 69,
        122 <= lon / 12_000_000 <= 154,
        3022 <= code1(lat / 8_000_000, lon / 12_000_000) <= 6954,
        sw1(code1(lat / 8_000_000, lon / 12_000_000)) == ((lat / 8_000_000) * 8_000_000, (lon
            / 12_000_000) * 12_000_000),
{
    let a = lat / 8_000_000;
    let b = lon / 12_000_000;
    lemma_div_range(lat, 8_000_000, 30, 70);
    lemma_div_range(lon, 12_000_000, 122, 155);
    lemma_digit_split(a, b - 100, 100);
}

/// Level 2 corner recovery: the code's first four digits are the Level 1
/// code, and the corner is the point's Level 2 cell corner.
pub proof fn lemma_l2(lat: int, lon: int)
    requires
        in_envelope(lat, lon),
    ensures
        code2(lat / 1_000_000, lon / 1_500_000) / 100 == code1(lat / 8_000_000, lon / 12_000_000),
        302200 <= code2(lat / 1_000_000, lon / 1_500_000) <= 695479,
        sw2(code2(lat / 1_000_000, lon / 1_500_000)) == ((lat / 1_000_000) * 1_000_000, (lon
            / 1_500_000) * 1_500_000),
{
    let a = lat / 1_000_000;
    let b = lon / 1_500_000;
    lemma_index_split(lat, 1_000_000, 8);
    lemma_index_split(lon, 1_500_000, 8);
    assert(1_000_000int * 8 == 8_000_000);
    assert(1_500_000int * 8 == 12_000_000);
    lemma_l1(lat, lon);
    lemma_mod_bound(a, 8);
    lemma_mod_bound(b, 8);
    let c1 = code1(a / 8, b / 8);
    let t = (a % 8) * 10 + b % 8;
    lemma_digit_split(c1, t, 100);
    lemma_digit_split(a % 8, b % 8, 10);
}

/// Level 3 corner recovery: the code's first six digits are the Level 2
/// code, and the corner is the point's Level 3 cell corner.
#[verifier::rlimit(100)]
pub proof fn lemma_l3(lat: int, lon: int)
    requires
        in_envelope(lat, lon),
    ensures
        code3(lat / 100_000, lon / 150_000) / 100 == code2(lat / 1_000_000, lon / 1_500_000),
        30220000 <= code3(lat / 100_000, lon / 150_000) <= 69547999,
        sw3(code3(lat / 100_000, lon / 150_000)) == ((lat / 100_000) * 100_000, (lon / 150_000)
            * 150_000),
{
    let a = lat / 100_000;
    let b = lon / 150_000;
    lemma_index_split(lat, 100_000, 10);
    lemma_index_split(lon, 150_000, 10);
    assert(100_000int * 10 == 1_000_000);
    assert(150_000int * 10 == 1_500_000);
    assert(a / 10 == lat / 1_000_000);
    assert(b / 10 == lon / 1_500_000);
    lemma_l2(lat, lon);
    lemma_mod_bound(a, 10);
    lemma_mod_bound(b, 10);
    let c2 = code2(a / 10, b / 10);
    let t = (a % 10) * 10 + b % 10;
    let c3 = code3(a, b);
    assert(c3 == c2 * 100 + t);
    lemma_digit_split(c2, t, 100);
    assert(c3 / 100 == c2 && c3 % 100 == t);
    lemma_digit_split(a % 10, b % 10, 10);
    assert(t / 10 == a % 10 && t % 10 == b % 10);
    assert(sw3(c3).0 == sw2(c2).0 + (a % 10) * 100_000);
    assert(sw3(c3).1 == sw2(c2).1 + (b % 10) * 150_000);
    assert(a == 10 * (a / 10) + a % 10);
    assert(b == 10 * (b / 10) + b % 10);
    assert(sw3(c3).0 == a * 100_000);
    assert(sw3(c3).1 == b * 150_000);
    assert(30220000 <= c3 <= 69547999);
}

/// Half mesh corner recovery, through the NE/SE/NW/SW quadrant digit.
#[verifier::rlimit(100)]
pub proof fn lemma_l4h(lat: int, lon: int)
    requires
        in_envelope(lat, lon),
    ensures
        code4h(lat / 50_000, lon / 75_000) / 10 == code3(lat / 100_000, lon / 150_000),
        302200001 <= code4h(lat / 50_000, lon / 75_000) <= 695479994,
        sw4h(code4h(lat / 50_000, lon / 75_000)) == ((lat / 50_000) * 50_000, (lon / 75_000)
            * 75_000),
{
    let a = lat / 50_000;
    let b = lon / 75_000;
    lemma_index_split(lat, 50_000, 2);
    lemma_index_split(lon, 75_000, 2);
    assert(50_000int * 2 == 100_000);
    assert(75_000int * 2 == 150_000);
    lemma_l3(lat, lon);
    lemma_mod_bound(a, 2);
    lemma_mod_bound(b, 2);
    let c3 = code3(a / 2, b / 2);
    let idx = half_index(a % 2, b % 2);
    assert(1 <= idx <= 4);
    lemma_digit_split(c3, idx, 10);
}

/// Quarter mesh corner recovery, through the 1..16 sub-cell index.
#[verifier::rlimit(100)]
pub proof fn lemma_l4q(lat: int, lon: int)
    requires
        in_envelope(lat, lon),
    ensures
        code4q(lat / 25_000, lon / 37_500) / 100 == code3(lat / 100_000, lon / 150_000),
        3022000001 <= code4q(lat / 25_000, lon / 37_500) <= 6954799916,
        sw4q(code4q(lat / 25_000, lon / 37_500)) == ((lat / 25_000) * 25_000, (lon / 37_500)
            * 37_500),
{
    let a = lat / 25_000;
    let b = lon / 37_500;
    lemma_index_split(lat, 25_000, 4);
    lemma_index_split(lon, 37_500, 4);
    assert(25_000int * 4 == 100_000);
    assert(37_500int * 4 == 150_000);
    lemma_l3(lat, lon);
    lemma_mod_bound(a, 4);
    lemma_mod_bound(b, 4);
    let c3 = code3(a / 4, b / 4);
    let idx = (a % 4) * 4 + b % 4 + 1;
    assert(1 <= idx <= 16);
    lemma_digit_split(c3, idx, 100);
    lemma_digit_split(a % 4, b % 4, 4);
}

/// Eighth mesh corner recovery, through the 1..64 sub-cell index.
#[verifier::rlimit(100)]
pub proof fn lemma_l4e(lat: int, lon: int)
    requires
        in_envelope(lat, lon),
    ensures
        code4e(lat / 12_500, lon / 18_750) / 1000 == code3(lat / 100_000, lon / 150_000),
        30220000001 <= code4e(lat / 12_500, lon / 18_750) <= 69547999964,
        sw4e(code4e(lat / 12_500, lon / 18_750)) == ((lat / 12_500) * 12_500, (lon / 18_750)
            * 18_750),
{
    let a = lat / 12_500;
    let b = lon / 18_750;
    lemma_index_split(lat, 12_500, 8);
    lemma_index_split(lon, 18_750, 8);
    assert(12_500int * 8 == 100_000);
    assert(18_750int * 8 == 150_000);
    lemma_l3(lat, lon);
    lemma_mod_bound(a, 8);
    lemma_mod_bound(b, 8);
    let c3 = code3(a / 8, b / 8);
    let idx = (a % 8) * 8 + b % 8 + 1;
    assert(1 <= idx <= 64);
    lemma_digit_split(c3, idx, 1000);
    lemma_digit_split(a % 8, b % 8, 8);
}

/// Level 5 corner recovery, through the 1..99 sub-cell index. The north-east
/// most sub-cell is excluded: its index 100 does not fit the two trailing
/// digits, so its code collides with the next Level 3 cell's digits.
#[verifier::rlimit(100)]
pub proof fn lemma_l5(lat: int, lon: int)
    requires
        in_envelope(lat, lon),
        !((lat / 10_000) % 10 == 9 && (lon / 15_000) % 10 == 9),
    ensures
        code5(lat / 10_000, lon / 15_000) / 100 == code3(lat / 100_000, lon / 150_000),
        3022000001 <= code5(lat / 10_000, lon / 15_000) <= 6954799999,
        sw5(code5(lat / 10_000, lon / 15_000)) == ((lat / 10_000) * 10_000, (lon / 15_000)
            * 15_000),
{
    let a = lat / 10_000;
    let b = lon / 15_000;
    lemma_index_split(lat, 10_000, 10);
    lemma_index_split(lon, 15_000, 10);
    assert(10_000int * 10 == 100_000);
    assert(15_000int * 10 == 150_000);
    lemma_l3(lat, lon);
    lemma_mod_bound(a, 10);
    lemma_mod_bound(b, 10);
    let c3 = code3(a / 10, b / 10);
    let idx = (a % 10) * 10 + b % 10 + 1;
    assert(1 <= idx <= 99);
    lemma_digit_split(c3, idx, 100);
    lemma_digit_split(a % 10, b % 10, 10);
}

/// Decoding the code of the cell containing an in-envelope point yields that
/// cell's south-west corner: the corner the point's own cell indices give.
///
/// The one exception is the north-east most Level 5 sub-cell of a Level 3
/// cell, whose index overflows its two digits.
pub proof fn lemma_encode_sw(lat: int, lon: int, l: MeshLevel)
    requires
        in_envelope(lat, lon),
        l == MeshLevel::Fifth ==> !((lat / 10_000) % 10 == 9 && (lon / 15_000) % 10 == 9),
    ensures
        decode_sw(l, encode_spec(lat, lon, l)) == ((lat / lat_size(l)) * lat_size(l), (lon
            / lon_size(l)) * lon_size(l)),
{
    match l {
        MeshLevel::First => lemma_l1(lat, lon),
        MeshLevel::Second => lemma_l2(lat, lon),
        MeshLevel::Third => lemma_l3(lat, lon),
        MeshLevel::FourthHalf => lemma_l4h(lat, lon),
        MeshLevel::FourthQuarter => lemma_l4q(lat, lon),
        MeshLevel::FourthEighth => lemma_l4e(lat, lon),
        MeshLevel::Fifth => lemma_l5(lat, lon),
    }
}

/// Every code of an in-envelope point fits its level's digit count.
#[verifier::rlimit(100)]
pub proof fn lemma_encode_bounds(lat: int, lon: int, l: MeshLevel)
    requires
        in_envelope(lat, lon),
    ensures
        1000 <= encode_spec(lat, lon, l) < pow10(level_len(l) as nat),
{
    assert(pow10(4) == 10000 && pow10(6) == 1000000 && pow10(8) == 100000000 && pow10(9)
        == 1000000000 && pow10(10) == 10000000000 && pow10(11) == 100000000000) by {
        reveal_with_fuel(pow10, 12);
    }
    match l {
        MeshLevel::First => lemma_l1(lat, lon),
        MeshLevel::Second => lemma_l2(lat, lon),
        MeshLevel::Third => lemma_l3(lat, lon),
        MeshLevel::FourthHalf => lemma_l4h(lat, lon),
        MeshLevel::FourthQuarter => lemma_l4q(lat, lon),
        MeshLevel::FourthEighth => lemma_l4e(lat, lon),
        MeshLevel::Fifth => {
            let a = lat / 10_000;
            let b = lon / 15_000;
            lemma_index_split(lat, 10_000, 10);
            lemma_index_split(lon, 15_000, 10);
            assert(10_000int * 10 == 100_000);
            assert(15_000int * 10 == 150_000);
            lemma_l3(lat, lon);
            lemma_mod_bound(a, 10);
            lemma_mod_bound(b, 10);
        },
    }
}

/// An in-envelope point lies inside the closed cell rectangle of its code.
pub proof fn lemma_encode_contains(lat: int, lon: int, l: MeshLevel)
    requires
        in_envelope(lat, lon),
        l == MeshLevel::Fifth ==> !((lat / 10_000) % 10 == 9 && (lon / 15_000) % 10 == 9),
    ensures
        decode_sw(l, encode_spec(lat, lon, l)).0 <= lat < decode_sw(l, encode_spec(lat, lon, l)).0
            + lat_size(l),
        decode_sw(l, encode_spec(lat, lon, l)).1 <= lon < decode_sw(l, encode_spec(lat, lon, l)).1
            + lon_size(l),
{
    lemma_encode_sw(lat, lon, l);
    lemma_cell_contains(lat, lat_size(l));
    lemma_cell_contains(lon, lon_size(l));
}

impl MeshLevel {
    /// Latitude extent of one cell at this level, in angle units.
    pub fn lat_size_units(self) -> (r: i64)
        ensures
            r == lat_size(self),
    {
        match self {
            MeshLevel::First => 8_000_000,
            MeshLevel::Second => 1_000_000,
            MeshLevel::Third => 100_000,
            MeshLevel::FourthHalf => 50_000,
            MeshLevel::FourthQuarter => 25_000,
            MeshLevel::FourthEighth => 12_500,
            MeshLevel::Fifth => 10_000,
        }
    }

    /// Longitude extent of one cell at this level, in angle units.
    pub fn lon_size_units(self) -> (r: i64)
        ensures
            r == lon_size(self),
    {
        match self {
            MeshLevel::First => 12_000_000,
            MeshLevel::Second => 1_500_000,
            MeshLevel::Third => 150_000,
            MeshLevel::FourthHalf => 75_000,
            MeshLevel::FourthQuarter => 37_500,
            MeshLevel::FourthEighth => 18_750,
            MeshLevel::Fifth => 15_000,
        }
    }
}

/// Cell extents are positive, even, and bounded by one degree.
pub proof fn lemma_size_facts(l: MeshLevel)
    ensures
        0 < lat_size(l) <= 8_000_000,
        0 < lon_size(l) <= 12_000_000,
        lat_size(l) % 2 == 0,
        lon_size(l) % 2 == 0,
        (lat_size(l) / 2) * 2 == lat_size(l),
        (lon_size(l) / 2) * 2 == lon_size(l),
{
    match l {
        MeshLevel::First => {},
        MeshLevel::Second => {},
        MeshLevel::Third => {},
        MeshLevel::FourthHalf => {},
        MeshLevel::FourthQuarter => {},
        MeshLevel::FourthEighth => {},
        MeshLevel::Fifth => {},
    }
}

/// 10^n is positive.
pub proof fn lemma_pow10_pos(n: nat)
    ensures
        pow10(n) >= 1,
    decreases n,
{
    if n > 0 {
        lemma_pow10_pos((n - 1) as nat);
    }
}

/// 10^n does not decrease with n.
pub proof fn lemma_pow10_mono(i: nat, j: nat)
    requires
        i <= j,
    ensures
        pow10(i) <= pow10(j),
    decreases j,
{
    if i < j {
        lemma_pow10_mono(i, (j - 1) as nat);
        lemma_pow10_pos((j - 1) as nat);
    }
}

/// 10^(a+b) is the product of 10^a and 10^b.
pub proof fn lemma_pow10_adds(a: nat, b: nat)
    ensures
        pow10(a + b) == pow10(a) * pow10(b),
    decreases a,
{
    if a > 0 {
        lemma_pow10_adds((a - 1) as nat, b);
        assert(((a + b) - 1) as nat == (a - 1) as nat + b);
        assert(pow10(a + b) == 10 * pow10((a - 1) as nat + b));
        assert(pow10(a + b) == 10 * (pow10((a - 1) as nat) * pow10(b)));
        assert(pow10(a) == 10 * pow10((a - 1) as nat));
        assert(pow10(a + b) == pow10(a) * pow10(b)) by (nonlinear_arith)
            requires
                pow10(a + b) == 10 * (pow10((a - 1) as nat) * pow10(b)),
                pow10(a) == 10 * pow10((a - 1) as nat),
        ;
    } else {
        assert(pow10(a) == 1);
        assert(pow10(a + b) == pow10(b));
        assert(pow10(a + b) == pow10(a) * pow10(b)) by (nonlinear_arith)
            requires
                pow10(a + b) == pow10(b),
                pow10(a) == 1,
        ;
    }
}

/// 10^n as a machine integer, for the digit counts that occur in codes.
pub fn pow10_u64(n: usize) -> (r: u64)
    requires
        n <= 12,
    ensures
        r == pow10(n as nat),
{
    proof {
        assert(pow10(12) == 1000000000000) by {
            reveal_with_fuel(pow10, 13);
        }
    }
    let mut r: u64 = 1;
    let mut i: usize = 0;
    while i < n
        invariant
            i <= n <= 12,
            r == pow10(i as nat),
            pow10(12) == 1000000000000,
        decreases n - i,
    {
        proof {
            lemma_pow10_mono((i + 1) as nat, 12);
        }
        r = r * 10;
        i = i + 1;
    }
    r
}

} // verus!

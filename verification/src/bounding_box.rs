//! Axis-aligned rectangles between two coordinates.

use vstd::prelude::*;

verus! {

use crate::coordinate::Coordinate;
use crate::grid::MAX_ABS_UNITS;
use vstd::arithmetic::div_mod::{lemma_fundamental_div_mod, lemma_fundamental_div_mod_converse,
    lemma_mod_bound};

/// A rectangle given by its south-west and north-east corners.
///
/// No ordering is enforced between the corners; an inverted rectangle simply
/// contains nothing and sweeps to nothing.
#[derive(Debug, Clone, Copy, PartialEq, Eq, Structural)]
pub struct BoundingBox {
    south_west: Coordinate,
    north_east: Coordinate,
}

/// Whether a point lies in the closed rectangle spanned by the given bounds.
pub open spec fn box_contains(
    min_lat: int,
    max_lat: int,
    min_lon: int,
    max_lon: int,
    lat: int,
    lon: int,
) -> bool {
    min_lat <= lat <= max_lat && min_lon <= lon <= max_lon
}

impl BoundingBox {
    /// The south-west corner.
    pub closed spec fn spec_south_west(self) -> Coordinate {
        self.south_west
    }

    /// The north-east corner.
    pub closed spec fn spec_north_east(self) -> Coordinate {
        self.north_east
    }

    /// Packs two corners into a rectangle.
    pub fn new(south_west: Coordinate, north_east: Coordinate) -> (r: Self)
        ensures
            r.spec_south_west() == south_west,
            r.spec_north_east() == north_east,
    {
        BoundingBox { south_west, north_east }
    }

    /// The south-west corner.
    pub fn south_west(&self) -> (r: Coordinate)
        ensures
            r == self.spec_south_west(),
    {
        self.south_west
    }

    /// The north-east corner.
    pub fn north_east(&self) -> (r: Coordinate)
        ensures
            r == self.spec_north_east(),
    {
        self.north_east
    }

    /// Lowest latitude of the rectangle.
    pub fn min_lat(&self) -> (r: i64)
        ensures
            r == self.spec_south_west().spec_lat(),
    {
        self.south_west.lat()
    }

    /// Highest latitude of the rectangle.
    pub fn max_lat(&self) -> (r: i64)
        ensures
            r == self.spec_north_east().spec_lat(),
    {
        self.north_east.lat()
    }

    /// Lowest longitude of the rectangle.
    pub fn min_lon(&self) -> (r: i64)
        ensures
            r == self.spec_south_west().spec_lon(),
    {
        self.south_west.lon()
    }

    /// Highest longitude of the rectangle.
    pub fn max_lon(&self) -> (r: i64)
        ensures
            r == self.spec_north_east().spec_lon(),
    {
        self.north_east.lon()
    }

    /// Whether a point lies in the closed rectangle.
    pub fn contains(&self, coord: Coordinate) -> (r: bool)
        ensures
            r == box_contains(
                self.spec_south_west().spec_lat() as int,
                self.spec_north_east().spec_lat() as int,
                self.spec_south_west().spec_lon() as int,
                self.spec_north_east().spec_lon() as int,
                coord.spec_lat() as int,
                coord.spec_lon() as int,
            ),
    {
        coord.lat() >= self.min_lat() && coord.lat() <= self.max_lat() && coord.lon()
            >= self.min_lon() && coord.lon() <= self.max_lon()
    }

    /// Midpoint of the rectangle, each axis rounded toward negative infinity
    /// at half-unit midpoints.
    pub fn center(&self) -> (r: Coordinate)
        ensures
            r.spec_lat() == (self.spec_south_west().spec_lat() + self.spec_north_east().spec_lat())
                / 2,
            r.spec_lon() == (self.spec_south_west().spec_lon() + self.spec_north_east().spec_lon())
                / 2,
    {
        proof {
            use_type_invariant(self.south_west);
            use_type_invariant(self.north_east);
        }
        let lat = Self::midpoint(self.south_west.lat(), self.north_east.lat());
        let lon = Self::midpoint(self.south_west.lon(), self.north_east.lon());
        Coordinate::new_unchecked(lat, lon)
    }

    /// Floor midpoint of two bounded angles.
    fn midpoint(a: i64, b: i64) -> (r: i64)
        requires
            -MAX_ABS_UNITS <= a <= MAX_ABS_UNITS,
            -MAX_ABS_UNITS <= b <= MAX_ABS_UNITS,
        ensures
            r == (a + b) / 2,
            -MAX_ABS_UNITS <= r <= MAX_ABS_UNITS,
    {
        let s = a + b;
        let shifted = (s + 2 * MAX_ABS_UNITS) as u64;
        let r = (shifted / 2) as i64 - MAX_ABS_UNITS;
        proof {
            let si = s as int;
            lemma_fundamental_div_mod(si, 2);
            lemma_mod_bound(si, 2);
            lemma_fundamental_div_mod_converse(si + 2 * MAX_ABS_UNITS, 2, si / 2 + MAX_ABS_UNITS,
                si % 2);
        }
        r
    }
}

} // verus!

//! Validated geographic coordinates in integer angle units.

use vstd::prelude::*;

verus! {

use crate::error::CoordinateError;
use crate::grid::{
    in_envelope,
    valid_lat,
    valid_lon,
    ENVELOPE_LAT_MAX,
    ENVELOPE_LAT_MIN,
    ENVELOPE_LON_MAX,
    ENVELOPE_LON_MIN,
    MAX_ABS_UNITS,
    UNITS_PER_DEGREE,
    UNITS_PER_MICRO_DEGREE,
};

/// A latitude/longitude pair in integer angle units (12,000,000 units per
/// degree).
///
/// The checked constructors only accept points inside the supported
/// envelope; `new_unchecked` admits nearby derived points (cell corners,
/// shifted centers), bounded to ±360°.
#[derive(Debug, Clone, Copy, PartialEq, Eq, Structural)]
pub struct Coordinate {
    lat: i64,
    lon: i64,
}

impl Coordinate {
    /// Latitude in angle units.
    pub closed spec fn spec_lat(self) -> i64 {
        self.lat
    }

    /// Longitude in angle units.
    pub closed spec fn spec_lon(self) -> i64 {
        self.lon
    }

    /// Both angles stay within ±360°. This holds of every value of the type.
    #[verifier::type_invariant]
    pub open spec fn inv(self) -> bool {
        -MAX_ABS_UNITS <= self.spec_lat() <= MAX_ABS_UNITS && -MAX_ABS_UNITS <= self.spec_lon()
            <= MAX_ABS_UNITS
    }

    /// Validates a point given in angle units: it must lie in the global
    /// latitude/longitude ranges and within the supported envelope.
    pub fn new(lat: i64, lon: i64) -> (r: Result<Self, CoordinateError>)
        ensures
            !valid_lat(lat as int) ==> r == Err::<Self, CoordinateError>(
                CoordinateError::InvalidLatitude(lat),
            ),
            valid_lat(lat as int) && !valid_lon(lon as int) ==> r == Err::<Self, CoordinateError>(
                CoordinateError::InvalidLongitude(lon),
            ),
            valid_lat(lat as int) && valid_lon(lon as int) && !in_envelope(lat as int, lon as int)
                ==> r == Err::<Self, CoordinateError>(CoordinateError::OutOfJapanRange),
            in_envelope(lat as int, lon as int) ==> (r matches Ok(c) && c.spec_lat() == lat
                && c.spec_lon() == lon),
    {
        if lat < -90 * UNITS_PER_DEGREE || lat > 90 * UNITS_PER_DEGREE {
            return Err(CoordinateError::InvalidLatitude(lat));
        }
        if lon < -180 * UNITS_PER_DEGREE || lon > 180 * UNITS_PER_DEGREE {
            return Err(CoordinateError::InvalidLongitude(lon));
        }
        if lat < ENVELOPE_LAT_MIN || lat > ENVELOPE_LAT_MAX || lon < ENVELOPE_LON_MIN || lon
            > ENVELOPE_LON_MAX {
            return Err(CoordinateError::OutOfJapanRange);
        }
        Ok(Coordinate { lat, lon })
    }

    /// Validates a point given in micro-degrees. Errors report the offending
    /// value as received, in micro-degrees.
    pub fn from_micro_degrees(lat_micro: i64, lon_micro: i64) -> (r: Result<
        Self,
        CoordinateError,
    >)
        ensures
            !(-90_000_000 <= lat_micro <= 90_000_000) ==> r == Err::<Self, CoordinateError>(
                CoordinateError::InvalidLatitude(lat_micro),
            ),
            -90_000_000 <= lat_micro <= 90_000_000 && !(-180_000_000 <= lon_micro <= 180_000_000)
                ==> r == Err::<Self, CoordinateError>(CoordinateError::InvalidLongitude(lon_micro)),
            -90_000_000 <= lat_micro <= 90_000_000 && -180_000_000 <= lon_micro <= 180_000_000
                && !in_envelope(
                lat_micro * UNITS_PER_MICRO_DEGREE,
                lon_micro * UNITS_PER_MICRO_DEGREE,
            ) ==> r == Err::<Self, CoordinateError>(CoordinateError::OutOfJapanRange),
            in_envelope(lat_micro * UNITS_PER_MICRO_DEGREE, lon_micro * UNITS_PER_MICRO_DEGREE)
                ==> (r matches Ok(c) && c.spec_lat() == lat_micro * UNITS_PER_MICRO_DEGREE
                && c.spec_lon() == lon_micro * UNITS_PER_MICRO_DEGREE),
    {
        if lat_micro < -90_000_000 || lat_micro > 90_000_000 {
            return Err(CoordinateError::InvalidLatitude(lat_micro));
        }
        if lon_micro < -180_000_000 || lon_micro > 180_000_000 {
            return Err(CoordinateError::InvalidLongitude(lon_micro));
        }
        Self::new(lat_micro * 12, lon_micro * 12)
    }

    /// Builds a point without envelope validation, for derived values such as
    /// cell corners and shifted centers. The angles must stay within ±360°.
    pub fn new_unchecked(lat: i64, lon: i64) -> (r: Self)
        requires
            -MAX_ABS_UNITS <= lat <= MAX_ABS_UNITS,
            -MAX_ABS_UNITS <= lon <= MAX_ABS_UNITS,
        ensures
            r.spec_lat() == lat,
            r.spec_lon() == lon,
    {
        Coordinate { lat, lon }
    }

    /// Latitude in angle units.
    pub fn lat(&self) -> (r: i64)
        ensures
            r == self.spec_lat(),
    {
        self.lat
    }

    /// Longitude in angle units.
    pub fn lon(&self) -> (r: i64)
        ensures
            r == self.spec_lon(),
    {
        self.lon
    }
}

} // verus!

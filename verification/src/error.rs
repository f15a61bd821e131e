//! Error types for code parsing and coordinate validation.

use vstd::prelude::*;

verus! {

/// Rejection of a mesh code string or numeric code value.
#[derive(Debug, Clone, PartialEq, Eq)]
pub enum MeshCodeError {
    /// The input string is not a well-formed code (for example, empty).
    InvalidFormat(String),
    /// A character of the input string is not a decimal digit.
    InvalidDigit {
        /// Index of the offending character.
        position: usize,
        /// The offending character itself.
        digit: char,
    },
    /// The digit count does not correspond to any mesh level.
    InvalidLevel(usize),
    /// The value does not fit the level, or the coordinate lies outside the
    /// supported envelope.
    OutOfRange,
}

impl MeshCodeError {
    /// Short description of the error.
    pub fn describe(&self) -> (r: &'static str)
        ensures
            self matches MeshCodeError::InvalidFormat(_) ==> r@ == "invalid mesh code format"@,
            self matches MeshCodeError::InvalidDigit { .. } ==> r@ == "invalid digit in mesh code"@,
            self matches MeshCodeError::InvalidLevel(_) ==> r@ == "invalid mesh code level"@,
            self matches MeshCodeError::OutOfRange ==> r@ == "mesh code out of valid range"@,
    {
        match self {
            MeshCodeError::InvalidFormat(_) => "invalid mesh code format",
            MeshCodeError::InvalidDigit { .. } => "invalid digit in mesh code",
            MeshCodeError::InvalidLevel(_) => "invalid mesh code level",
            MeshCodeError::OutOfRange => "mesh code out of valid range",
        }
    }
}

/// Rejection of a coordinate outside the supported ranges.
///
/// Offending angle values are reported in integer angle units
/// (see [`crate::grid::UNITS_PER_DEGREE`]).
#[derive(Debug, Clone, Copy, PartialEq, Eq, Structural)]
pub enum CoordinateError {
    /// Latitude outside the global −90°..90° range.
    InvalidLatitude(i64),
    /// Longitude outside the global −180°..180° range.
    InvalidLongitude(i64),
    /// Coordinate outside the supported envelope (20°..46° N, 122°..154° E).
    OutOfJapanRange,
}

impl CoordinateError {
    /// Short description of the error.
    pub fn describe(&self) -> (r: &'static str)
        ensures
            self matches CoordinateError::InvalidLatitude(_) ==> r@ == "invalid latitude"@,
            self matches CoordinateError::InvalidLongitude(_) ==> r@ == "invalid longitude"@,
            self matches CoordinateError::OutOfJapanRange ==> r@
                == "coordinate outside the supported envelope"@,
    {
        match self {
            CoordinateError::InvalidLatitude(_) => "invalid latitude",
            CoordinateError::InvalidLongitude(_) => "invalid longitude",
            CoordinateError::OutOfJapanRange => "coordinate outside the supported envelope",
        }
    }
}

} // verus!

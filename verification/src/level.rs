//! The seven precision levels of the mesh hierarchy.

use vstd::prelude::*;

verus! {

use crate::error::MeshCodeError;
use vstd::string::StrSliceExecFns;

/// Precision level of a mesh code, from the roughly 80 km Level 1 squares
/// down to the roughly 100 m Level 5 squares.
#[derive(Debug, Clone, Copy, PartialEq, Eq, PartialOrd, Ord, Hash, Structural)]
pub enum MeshLevel {
    /// Level 1 mesh (about 80 km, 4 digits).
    First,
    /// Level 2 mesh (about 10 km, 6 digits).
    Second,
    /// Level 3 mesh (about 1 km, 8 digits).
    Third,
    /// Level 4 half mesh (about 500 m, 9 digits).
    FourthHalf,
    /// Level 4 quarter mesh (about 250 m, 10 digits).
    FourthQuarter,
    /// Level 4 eighth mesh (about 125 m, 11 digits).
    FourthEighth,
    /// Level 5 mesh (about 100 m, 10 digits).
    Fifth,
}

/// Number of decimal digits in a canonical code string at this level.
pub open spec fn level_len(l: MeshLevel) -> int {
    match l {
        MeshLevel::First => 4,
        MeshLevel::Second => 6,
        MeshLevel::Third => 8,
        MeshLevel::FourthHalf => 9,
        MeshLevel::FourthQuarter => 10,
        MeshLevel::FourthEighth => 11,
        MeshLevel::Fifth => 10,
    }
}

/// Numeric rank of a level, finer levels ranking higher.
pub open spec fn level_rank(l: MeshLevel) -> int {
    match l {
        MeshLevel::First => 1,
        MeshLevel::Second => 2,
        MeshLevel::Third => 3,
        MeshLevel::FourthHalf => 4,
        MeshLevel::FourthQuarter => 5,
        MeshLevel::FourthEighth => 6,
        MeshLevel::Fifth => 7,
    }
}

/// The immediate coarser level, if any.
pub open spec fn level_parent(l: MeshLevel) -> Option<MeshLevel> {
    match l {
        MeshLevel::First => None,
        MeshLevel::Second => Some(MeshLevel::First),
        MeshLevel::Third => Some(MeshLevel::Second),
        MeshLevel::FourthHalf => Some(MeshLevel::Third),
        MeshLevel::FourthQuarter => Some(MeshLevel::Third),
        MeshLevel::FourthEighth => Some(MeshLevel::Third),
        MeshLevel::Fifth => Some(MeshLevel::Third),
    }
}

impl MeshLevel {
    /// The level whose canonical code strings have `len` digits.
    ///
    /// Ten-digit strings are reported as the quarter mesh; parsing a concrete
    /// string can instead classify it as Level 5 from its ninth digit.
    pub fn from_code_length(len: usize) -> (r: Result<Self, MeshCodeError>)
        ensures
            r == Self::spec_from_code_length(len as int),
    {
        match len {
            4 => Ok(MeshLevel::First),
            6 => Ok(MeshLevel::Second),
            8 => Ok(MeshLevel::Third),
            9 => Ok(MeshLevel::FourthHalf),
            10 => Ok(MeshLevel::FourthQuarter),
            11 => Ok(MeshLevel::FourthEighth),
            _ => Err(MeshCodeError::InvalidLevel(len)),
        }
    }

    /// What `from_code_length` returns for a given digit count.
    pub open spec fn spec_from_code_length(len: int) -> Result<MeshLevel, MeshCodeError> {
        if len == 4 {
            Ok(MeshLevel::First)
        } else if len == 6 {
            Ok(MeshLevel::Second)
        } else if len == 8 {
            Ok(MeshLevel::Third)
        } else if len == 9 {
            Ok(MeshLevel::FourthHalf)
        } else if len == 10 {
            Ok(MeshLevel::FourthQuarter)
        } else if len == 11 {
            Ok(MeshLevel::FourthEighth)
        } else {
            Err(MeshCodeError::InvalidLevel(len as usize))
        }
    }

    /// What `from_code_string` returns for a given character sequence:
    /// ten-digit strings are split on the ninth digit (1..4 marks the quarter
    /// mesh, anything else Level 5), all others go by length alone.
    pub open spec fn spec_from_code_string(s: Seq<char>) -> Result<MeshLevel, MeshCodeError> {
        if s.len() == 10 {
            if 49 <= s[8] as u32 <= 52 {
                Ok(MeshLevel::FourthQuarter)
            } else {
                Ok(MeshLevel::Fifth)
            }
        } else {
            Self::spec_from_code_length(s.len() as int)
        }
    }

    /// The level a code string denotes, disambiguating the ten-digit case by
    /// its ninth digit.
    pub fn from_code_string(code_str: &str) -> (r: Result<Self, MeshCodeError>)
        ensures
            r == Self::spec_from_code_string(code_str@),
    {
        let len = code_str.unicode_len();
        if len == 10 {
            let ninth = code_str.get_char(8);
            let cu = ninth as u32;
            if 49 <= cu && cu <= 52 {
                Ok(MeshLevel::FourthQuarter)
            } else {
                Ok(MeshLevel::Fifth)
            }
        } else {
            Self::from_code_length(len)
        }
    }

    /// Number of decimal digits in this level's canonical code strings.
    pub fn code_length(self) -> (r: usize)
        ensures
            r == level_len(self),
    {
        match self {
            MeshLevel::First => 4,
            MeshLevel::Second => 6,
            MeshLevel::Third => 8,
            MeshLevel::FourthHalf => 9,
            MeshLevel::FourthQuarter => 10,
            MeshLevel::FourthEighth => 11,
            MeshLevel::Fifth => 10,
        }
    }

    /// Rough edge length of one cell at this level, in meters.
    pub fn approximate_size_meters(self) -> (r: u64)
        ensures
            self == MeshLevel::First ==> r == 80000,
            self == MeshLevel::Second ==> r == 10000,
            self == MeshLevel::Third ==> r == 1000,
            self == MeshLevel::FourthHalf ==> r == 500,
            self == MeshLevel::FourthQuarter ==> r == 250,
            self == MeshLevel::FourthEighth ==> r == 125,
            self == MeshLevel::Fifth ==> r == 100,
    {
        match self {
            MeshLevel::First => 80000,
            MeshLevel::Second => 10000,
            MeshLevel::Third => 1000,
            MeshLevel::FourthHalf => 500,
            MeshLevel::FourthQuarter => 250,
            MeshLevel::FourthEighth => 125,
            MeshLevel::Fifth => 100,
        }
    }

    /// The immediate coarser level; `None` for Level 1.
    pub fn parent(self) -> (r: Option<Self>)
        ensures
            r == level_parent(self),
    {
        match self {
            MeshLevel::First => None,
            MeshLevel::Second => Some(MeshLevel::First),
            MeshLevel::Third => Some(MeshLevel::Second),
            MeshLevel::FourthHalf => Some(MeshLevel::Third),
            MeshLevel::FourthQuarter => Some(MeshLevel::Third),
            MeshLevel::FourthEighth => Some(MeshLevel::Third),
            MeshLevel::Fifth => Some(MeshLevel::Third),
        }
    }

    /// Numeric tag of this level, finer levels ranking higher.
    pub fn as_u8(self) -> (r: u8)
        ensures
            r == level_rank(self),
    {
        match self {
            MeshLevel::First => 1,
            MeshLevel::Second => 2,
            MeshLevel::Third => 3,
            MeshLevel::FourthHalf => 4,
            MeshLevel::FourthQuarter => 5,
            MeshLevel::FourthEighth => 6,
            MeshLevel::Fifth => 7,
        }
    }

    /// The level with a given numeric tag.
    pub fn from_u8(value: u8) -> (r: Result<Self, MeshCodeError>)
        ensures
            value == 1 ==> r == Ok::<Self, MeshCodeError>(MeshLevel::First),
            value == 2 ==> r == Ok::<Self, MeshCodeError>(MeshLevel::Second),
            value == 3 ==> r == Ok::<Self, MeshCodeError>(MeshLevel::Third),
            value == 4 ==> r == Ok::<Self, MeshCodeError>(MeshLevel::FourthHalf),
            value == 5 ==> r == Ok::<Self, MeshCodeError>(MeshLevel::FourthQuarter),
            value == 6 ==> r == Ok::<Self, MeshCodeError>(MeshLevel::FourthEighth),
            value == 7 ==> r == Ok::<Self, MeshCodeError>(MeshLevel::Fifth),
            !(1 <= value <= 7) ==> r == Err::<Self, MeshCodeError>(
                MeshCodeError::InvalidLevel(value as usize),
            ),
            r matches Ok(l) ==> level_rank(l) == value,
    {
        match value {
            1 => Ok(MeshLevel::First),
            2 => Ok(MeshLevel::Second),
            3 => Ok(MeshLevel::Third),
            4 => Ok(MeshLevel::FourthHalf),
            5 => Ok(MeshLevel::FourthQuarter),
            6 => Ok(MeshLevel::FourthEighth),
            7 => Ok(MeshLevel::Fifth),
            _ => Err(MeshCodeError::InvalidLevel(value as usize)),
        }
    }
}

} // verus!

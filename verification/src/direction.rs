//! The eight compass directions used for neighbor lookup.

use vstd::prelude::*;

verus! {

/// A compass direction, with a unit step on each axis.
#[derive(Debug, Clone, Copy, PartialEq, Eq, Hash, Structural)]
pub enum Direction {
    /// One cell north.
    North,
    /// One cell north and one east.
    NorthEast,
    /// One cell east.
    East,
    /// One cell south and one east.
    SouthEast,
    /// One cell south.
    South,
    /// One cell south and one west.
    SouthWest,
    /// One cell west.
    West,
    /// One cell north and one west.
    NorthWest,
}

/// The (longitude step, latitude step) pair of a direction.
pub open spec fn spec_offset(d: Direction) -> (int, int) {
    match d {
        Direction::North => (0, 1),
        Direction::NorthEast => (1, 1),
        Direction::East => (1, 0),
        Direction::SouthEast => (1, -1),
        Direction::South => (0, -1),
        Direction::SouthWest => (-1, -1),
        Direction::West => (-1, 0),
        Direction::NorthWest => (-1, 1),
    }
}

/// The direction pointing the opposite way.
pub open spec fn spec_opposite(d: Direction) -> Direction {
    match d {
        Direction::North => Direction::South,
        Direction::NorthEast => Direction::SouthWest,
        Direction::East => Direction::West,
        Direction::SouthEast => Direction::NorthWest,
        Direction::South => Direction::North,
        Direction::SouthWest => Direction::NorthEast,
        Direction::West => Direction::East,
        Direction::NorthWest => Direction::SouthEast,
    }
}

impl Direction {
    /// The (longitude step, latitude step) pair of this direction.
    pub fn offset(self) -> (r: (i32, i32))
        ensures
            r.0 == spec_offset(self).0,
            r.1 == spec_offset(self).1,
    {
        match self {
            Direction::North => (0, 1),
            Direction::NorthEast => (1, 1),
            Direction::East => (1, 0),
            Direction::SouthEast => (1, -1),
            Direction::South => (0, -1),
            Direction::SouthWest => (-1, -1),
            Direction::West => (-1, 0),
            Direction::NorthWest => (-1, 1),
        }
    }

    /// The direction pointing the opposite way. Applying it twice yields the
    /// original direction.
    pub fn opposite(self) -> (r: Self)
        ensures
            r == spec_opposite(self),
            spec_opposite(r) == self,
    {
        match self {
            Direction::North => Direction::South,
            Direction::NorthEast => Direction::SouthWest,
            Direction::East => Direction::West,
            Direction::SouthEast => Direction::NorthWest,
            Direction::South => Direction::North,
            Direction::SouthWest => Direction::NorthEast,
            Direction::West => Direction::East,
            Direction::NorthWest => Direction::SouthEast,
        }
    }
}

} // verus!

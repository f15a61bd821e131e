//! Hierarchical grid codes for the Japanese standard regional mesh.
//!
//! Coordinates are carried as exact integer angle units (12,000,000 units per
//! degree), so every cell boundary of every mesh level is represented exactly
//! and the whole encode/decode pipeline is plain integer arithmetic.

pub mod arith;
pub mod bounding_box;
pub mod convert;
pub mod coordinate;
pub mod direction;
pub mod error;
pub mod grid;
pub mod hierarchy;
pub mod laws;
pub mod level;
pub mod mesh_code;
pub mod neighbors;
pub mod operations;
pub mod radius;
pub mod range;

use vstd::prelude::*;

verus! {

pub use crate::bounding_box::BoundingBox;
pub use crate::convert::{coord_to_mesh, mesh_to_bounds, mesh_to_center};
pub use crate::coordinate::Coordinate;
pub use crate::direction::Direction;
pub use crate::error::{CoordinateError, MeshCodeError};
pub use crate::hierarchy::{children, parent, to_level};
pub use crate::level::MeshLevel;
pub use crate::mesh_code::MeshCode;
pub use crate::neighbors::{neighbor, neighbors};
pub use crate::operations::{bounds, center, contains};
pub use crate::radius::{
    codes_within,
    mesh_codes_in_radius,
    mesh_codes_in_radius_from_mesh,
    MeshCodeRadiusIterator,
};
pub use crate::range::{mesh_codes_in_bbox, MeshCodeIterator};

} // verus!

//! Facelet-to-piece resolution for a 3x3x3 cube described by six grids of
//! colour symbols.
//!
//! A cube is read from the lines of a text ([`reader`]) or filled face by
//! face ([`cube`]). Each face is known by the colour in the middle of its
//! grid. The tables in [`topology`] say which facelets meet at each corner
//! and edge piece; [`resolver`] turns the colours found there into the
//! faces that they stand for.

pub mod face;
pub mod grid;
pub mod cube;
pub mod topology;
pub mod resolver;
pub mod reader;
pub mod sequences;
pub mod theorems;

pub use crate::cube::{Coordinate, RawCube};
pub use crate::face::Face;
pub use crate::grid::RawFace;
pub use crate::reader::read_raw_cube;
pub use crate::topology::{CORNERS, EDGES};

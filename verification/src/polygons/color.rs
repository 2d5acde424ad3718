//! The colour of a polygon.

use vstd::prelude::*;

verus! {

pub use crate::color::RGBA;

/// The colour of a polygon's vertices.
pub type ColorRGBA = crate::color::RGBA;

} // verus!

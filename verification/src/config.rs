//! The size of the drawing surface.

use vstd::prelude::*;

verus! {

/// Width and height of a window's drawing surface, in pixels.
#[derive(Clone, Copy, Debug, PartialEq, Eq, Structural)]
pub struct Resolution {
    pub width: u32,
    pub height: u32,
}

} // verus!

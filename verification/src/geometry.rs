//! Plain rectangle value type describing a component's on-screen placement.

use vstd::prelude::*;

verus! {

/// Placement of a component or of the bar itself: position and pixel size.
///
/// A geometry is an immutable value; the layout recomputes it wholesale on
/// each redraw and never patches it in place.
#[derive(Clone, Copy, Debug, PartialEq, Eq, Hash, Structural)]
pub struct Geometry {
    pub x: i16,
    pub y: i16,
    pub width: u16,
    pub height: u16,
}

impl Geometry {
    /// Build a geometry without struct syntax.
    pub fn new(x: i16, y: i16, width: u16, height: u16) -> (r: Self)
        ensures
            r == (Geometry { x, y, width, height }),
    {
        Geometry { x, y, width, height }
    }
}

impl Default for Geometry {
    /// The zero-sized geometry at the origin.
    fn default() -> (r: Self)
        ensures
            r == (Geometry { x: 0i16, y: 0i16, width: 0u16, height: 0u16 }),
    {
        Geometry { x: 0, y: 0, width: 0, height: 0 }
    }
}

} // verus!

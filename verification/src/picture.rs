//! The model of a server-side composited picture.

use crate::geometry::Geometry;
use vstd::prelude::*;

verus! {

/// A server-side picture with known pixel dimensions.
///
/// The picture's pixels live in the display server; the bar only holds the
/// protocol identifier and the size it was created with. Exactly one
/// registry entry owns a live picture at a time, and the executing edge
/// frees the server resource when its owner lets go of it.
#[derive(Clone, Copy, Debug, Eq, Hash, PartialEq, Structural)]
pub struct Picture {
    /// The protocol identifier of the server-side picture.
    pub xid: u32,
    /// Position and size of the picture's contents.
    pub geometry: Geometry,
}

impl Picture {
    /// Record a server-side picture of the given id and size.
    pub fn new(xid: u32, geometry: Geometry) -> (r: Self)
        ensures
            r == (Picture { xid, geometry }),
    {
        Picture { xid, geometry }
    }
}

} // verus!

//! Render settings the drawing collaborator reads each frame.

use vstd::prelude::*;

verus! {

/// Toggles the renderer uploads to its shader before drawing.
#[derive(Clone, Copy, PartialEq, Eq, Structural, Debug)]
pub struct Settings {
    /// Whether the vertex shader applies skinning matrices.
    pub do_skinning: bool,
}

impl Settings {
    /// Fresh settings: skinning off.
    pub fn new() -> (s: Settings)
        ensures
            s.do_skinning == false,
    {
        Settings { do_skinning: false }
    }
}

} // verus!

use vstd::prelude::*;

verus! {

/// A 2D pose. Positions are in millipixels (one thousandth of a screen
/// pixel), so frame-rate independent movement stays exact integer
/// arithmetic; `rot` is an orientation in millidegrees.
#[derive(Clone, Copy, Debug, PartialEq, Eq, Structural)]
pub struct Transform {
    pub x: i64,
    pub y: i64,
    pub rot: i64,
}

impl Transform {
    /// The world origin with no rotation.
    pub fn origin() -> (t: Transform)
        ensures
            t == (Transform { x: 0i64, y: 0i64, rot: 0i64 }),
    {
        Transform { x: 0, y: 0, rot: 0 }
    }
}

} // verus!

use vstd::prelude::*;

verus! {

/// The playable area, fixed for a session: cells `[0, width] x [0, height]`.
#[derive(Clone, Copy, Debug, PartialEq, Eq, Structural)]
pub struct Viewport {
    pub width: u16,
    pub height: u16,
}

impl Viewport {
    pub fn new(width: u16, height: u16) -> (r: Viewport)
        ensures
            r.width == width,
            r.height == height,
    {
        Viewport { width, height }
    }
}

} // verus!

use vstd::prelude::*;

verus! {

/// The way a tank faces or a bullet travels.
#[derive(Clone, Copy, Debug, PartialEq, Eq, Structural)]
pub enum Direction {
    Up,
    Down,
    Left,
    Right,
}

} // verus!

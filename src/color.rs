use vstd::prelude::*;

verus! {

/// The colour a tank is drawn in; it plays no part in the rules.
#[derive(Clone, Copy, Debug, PartialEq, Eq, Structural)]
pub enum Color {
    LightBlue,
    LightRed,
}

} // verus!

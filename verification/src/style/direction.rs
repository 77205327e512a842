use vstd::prelude::*;

verus! {

/// The inline base direction of a box.
#[derive(Copy, Clone, PartialEq, Eq, Debug, Structural)]
pub enum Direction {
    /// Left-to-right.
    Ltr,
    /// Right-to-left.
    Rtl,
}

} // verus!

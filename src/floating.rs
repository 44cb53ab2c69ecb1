use vstd::prelude::*;

verus! {

/// Numbers or number containers with a floating-point counterpart.
pub trait FloatingEquivalent {
    type Floating: Floating;

    /// `self` as its floating-point counterpart.
    fn floating(self) -> Self::Floating;
}

/// Floating-point numbers, or containers of them.
pub trait Floating {
}

} // verus!

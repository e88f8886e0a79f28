//! Traits shared by the peripherals.
use vstd::prelude::*;

verus! {

/// Splits a peripheral into parts that are owned apart.
pub trait Split {
    type Parts;

    fn split(self) -> Self::Parts;
}

} // verus!

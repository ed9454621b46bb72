//! The floating-point variant of the typed-value container.
//!
//! The model carries floats as their IEEE-754 bit pattern and never computes
//! with them; arithmetic on the payload belongs to the foreign runtime.

use vstd::prelude::*;

verus! {

/// A floating-point value of the foreign runtime, held as its bit pattern.
#[derive(Clone, Copy, Debug, PartialEq, Eq, Structural)]
pub struct PikeFloat {
    /// The IEEE-754 bit pattern of the value.
    pub bits: u64,
}

impl PikeFloat {
    /// Wraps a bit pattern.
    pub fn new(bits: u64) -> (r: Self)
        ensures
            r.bits == bits,
    {
        PikeFloat { bits }
    }
}

} // verus!

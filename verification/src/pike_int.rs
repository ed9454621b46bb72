//! The integer variant of the typed-value container.

use vstd::prelude::*;

verus! {

/// A plain integer value of the foreign runtime.
#[derive(Clone, Copy, Debug, PartialEq, Eq, Structural)]
pub struct PikeInt {
    /// The integer payload.
    pub integer: i64,
}

impl PikeInt {
    /// Wraps an integer payload.
    pub fn new(i: i64) -> (r: Self)
        ensures
            r.integer == i,
    {
        PikeInt { integer: i }
    }
}

impl From<i64> for PikeInt {
    /// Wraps an integer payload.
    fn from(i: i64) -> (r: Self) {
        PikeInt { integer: i }
    }
}

impl vstd::std_specs::convert::FromSpecImpl<i64> for PikeInt {
    open spec fn obeys_from_spec() -> bool {
        true
    }

    open spec fn from_spec(i: i64) -> Self {
        PikeInt { integer: i }
    }
}

impl From<PikeInt> for i64 {
    /// Unwraps the integer payload.
    fn from(i: PikeInt) -> (r: i64) {
        i.integer
    }
}

impl vstd::std_specs::convert::FromSpecImpl<PikeInt> for i64 {
    open spec fn obeys_from_spec() -> bool {
        true
    }

    open spec fn from_spec(i: PikeInt) -> i64 {
        i.integer
    }
}

} // verus!

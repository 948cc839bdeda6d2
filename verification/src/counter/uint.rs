//! Widening of the supported unsigned integer widths into the one widest
//! count representation.

use vstd::prelude::*;

use crate::sealed::Sealed;

verus! {

/// The widest unsigned representation used for all stored counts; every
/// supported source width widens into it without loss.
pub type MaxCountUInt = u64;

/// Closed capability of the unsigned integer widths accepted as counts.
///
/// Signed types are deliberately excluded so a negative value can never be
/// silently reinterpreted as a large unsigned count.
pub trait CountUInt: Sized + Sealed {
    /// The mathematical value of this integer.
    spec fn as_count(self) -> int;

    /// Widens into [`MaxCountUInt`], preserving the numeric value exactly.
    fn into_max_uint(self) -> (r: MaxCountUInt)
        ensures
            r as int == self.as_count(),
    ;
}

impl Sealed for u8 {

}

impl CountUInt for u8 {
    open spec fn as_count(self) -> int {
        self as int
    }

    fn into_max_uint(self) -> (r: MaxCountUInt) {
        self as u64
    }
}

impl Sealed for u16 {

}

impl CountUInt for u16 {
    open spec fn as_count(self) -> int {
        self as int
    }

    fn into_max_uint(self) -> (r: MaxCountUInt) {
        self as u64
    }
}

impl Sealed for u32 {

}

impl CountUInt for u32 {
    open spec fn as_count(self) -> int {
        self as int
    }

    fn into_max_uint(self) -> (r: MaxCountUInt) {
        self as u64
    }
}

impl Sealed for u64 {

}

impl CountUInt for u64 {
    open spec fn as_count(self) -> int {
        self as int
    }

    fn into_max_uint(self) -> (r: MaxCountUInt) {
        self
    }
}

impl Sealed for usize {

}

impl CountUInt for usize {
    open spec fn as_count(self) -> int {
        self as int
    }

    fn into_max_uint(self) -> (r: MaxCountUInt) {
        self as u64
    }
}

/// Widening into [`MaxCountUInt`] is lossless: for every supported width and
/// every representable value, casting back recovers the original value.
pub proof fn lemma_widening_roundtrip(a: u8, b: u16, c: u32, d: u64, e: usize)
    ensures
        ((a as MaxCountUInt) as u8) == a,
        ((b as MaxCountUInt) as u16) == b,
        ((c as MaxCountUInt) as u32) == c,
        ((d as MaxCountUInt) as u64) == d,
        ((e as MaxCountUInt) as usize) == e,
{
}

} // verus!

//! Ad-hoc conversion of raw values into concrete counters.

use vstd::layout::spec_size_of_val;
use vstd::prelude::*;
use vstd::string::StringSliceAdditionalSpecFns;

use crate::counter::uint::MaxCountUInt;
use crate::counter::{BytesCount, Counter, ItemsCount};

verus! {

/// Converts an accepted input into a concrete [`Counter`] via one default
/// mapping per source type: a counter is taken as-is, a bare unsigned count
/// becomes an [`ItemsCount`], and a byte-like sequence becomes a
/// [`BytesCount`].
///
/// The conversion is total over its accepted input types: it never fails at
/// the value level, and an unsupported source type is a static type
/// mismatch, not a runtime condition.
pub trait IntoCounter {
    /// The concrete counter kind this input converts into.
    type Counter: Counter;

    /// The widened count the produced counter will carry.
    spec fn count_into(self) -> MaxCountUInt;

    /// Performs the conversion.
    fn into_counter(self) -> (r: Self::Counter)
        ensures
            r.count_spec() == self.count_into(),
    ;
}

impl IntoCounter for BytesCount {
    type Counter = BytesCount;

    open spec fn count_into(self) -> MaxCountUInt {
        self.count_spec()
    }

    fn into_counter(self) -> (r: BytesCount) {
        self
    }
}

impl IntoCounter for crate::counter::CharsCount {
    type Counter = crate::counter::CharsCount;

    open spec fn count_into(self) -> MaxCountUInt {
        self.count_spec()
    }

    fn into_counter(self) -> (r: crate::counter::CharsCount) {
        self
    }
}

impl IntoCounter for ItemsCount {
    type Counter = ItemsCount;

    open spec fn count_into(self) -> MaxCountUInt {
        self.count_spec()
    }

    fn into_counter(self) -> (r: ItemsCount) {
        self
    }
}

impl IntoCounter for u8 {
    type Counter = ItemsCount;

    open spec fn count_into(self) -> MaxCountUInt {
        self as u64
    }

    fn into_counter(self) -> (r: ItemsCount) {
        ItemsCount::new(self)
    }
}

impl IntoCounter for u16 {
    type Counter = ItemsCount;

    open spec fn count_into(self) -> MaxCountUInt {
        self as u64
    }

    fn into_counter(self) -> (r: ItemsCount) {
        ItemsCount::new(self)
    }
}

impl IntoCounter for u32 {
    type Counter = ItemsCount;

    open spec fn count_into(self) -> MaxCountUInt {
        self as u64
    }

    fn into_counter(self) -> (r: ItemsCount) {
        ItemsCount::new(self)
    }
}

impl IntoCounter for u64 {
    type Counter = ItemsCount;

    open spec fn count_into(self) -> MaxCountUInt {
        self
    }

    fn into_counter(self) -> (r: ItemsCount) {
        ItemsCount::new(self)
    }
}

impl IntoCounter for usize {
    type Counter = ItemsCount;

    open spec fn count_into(self) -> MaxCountUInt {
        self as u64
    }

    fn into_counter(self) -> (r: ItemsCount) {
        ItemsCount::new(self)
    }
}

impl<'a> IntoCounter for &'a str {
    type Counter = BytesCount;

    open spec fn count_into(self) -> MaxCountUInt {
        self.spec_bytes().len() as u64
    }

    fn into_counter(self) -> (r: BytesCount) {
        BytesCount::of_str(self)
    }
}

impl<'a, T> IntoCounter for &'a [T] {
    type Counter = BytesCount;

    open spec fn count_into(self) -> MaxCountUInt {
        spec_size_of_val::<[T]>(self) as u64
    }

    fn into_counter(self) -> (r: BytesCount) {
        BytesCount::of_slice(self)
    }
}

} // verus!

//! Counters of values processed in each iteration, to measure throughput.
//!
//! A benchmark registers a counter saying how much work one iteration
//! performs: a number of bytes ([`BytesCount`]), of Unicode code points
//! ([`CharsCount`]), or of abstract items ([`ItemsCount`]). Each wraps one
//! non-negative count widened into [`MaxCountUInt`].

use vstd::layout::{size_of, spec_size_of_val};
use vstd::prelude::*;
use vstd::std_specs::cmp::PartialOrdSpec;
use vstd::string::{StrSliceExecFns, StringSliceAdditionalSpecFns};

use core::cmp::Ordering;

use crate::sealed::Sealed;

pub mod any_counter;
pub mod collection;
pub mod format;
pub mod into_counter;
pub mod uint;

pub use any_counter::{AnyCounter, KnownCounterKind};
pub use collection::{CounterCollection, CounterSet};
pub use format::BytesFormat;
pub use into_counter::IntoCounter;
pub use uint::{CountUInt, MaxCountUInt};

verus! {

broadcast use vstd::layout::layout_of_slices;

/// Counts the number of values processed in each iteration of a benchmarked
/// function.
///
/// A closed capability: only the built-in kinds implement it, so generic
/// storage and erasure code can rely on the fixed kind set.
pub trait Counter: Sized + Sealed {
    /// The kind tag this counter erases to.
    spec fn kind_spec() -> KnownCounterKind;

    /// The widened count this counter carries.
    spec fn count_spec(&self) -> MaxCountUInt;

    /// The kind tag this counter erases to.
    fn kind() -> (k: KnownCounterKind)
        ensures
            k == Self::kind_spec(),
    ;

    /// The widened count this counter carries.
    fn count(&self) -> (c: MaxCountUInt)
        ensures
            c == self.count_spec(),
    ;
}

/// Process N bytes.
#[derive(Clone, Copy, Debug, PartialEq, Eq, Structural, Ord)]
pub struct BytesCount {
    count: MaxCountUInt,
}

/// Process N Unicode code points.
///
/// Counting code points rather than bytes gives a common baseline when
/// comparing ASCII and Unicode implementations of the same work.
#[derive(Clone, Copy, Debug, PartialEq, Eq, Structural, Ord)]
pub struct CharsCount {
    count: MaxCountUInt,
}

/// Process N items.
#[derive(Clone, Copy, Debug, PartialEq, Eq, Structural, Ord)]
pub struct ItemsCount {
    count: MaxCountUInt,
}

impl Sealed for BytesCount {

}

impl Sealed for CharsCount {

}

impl Sealed for ItemsCount {

}

impl Counter for BytesCount {
    open spec fn kind_spec() -> KnownCounterKind {
        KnownCounterKind::Bytes
    }

    closed spec fn count_spec(&self) -> MaxCountUInt {
        self.count
    }

    fn kind() -> (k: KnownCounterKind) {
        KnownCounterKind::Bytes
    }

    fn count(&self) -> (c: MaxCountUInt) {
        self.count
    }
}

impl Counter for CharsCount {
    open spec fn kind_spec() -> KnownCounterKind {
        KnownCounterKind::Chars
    }

    closed spec fn count_spec(&self) -> MaxCountUInt {
        self.count
    }

    fn kind() -> (k: KnownCounterKind) {
        KnownCounterKind::Chars
    }

    fn count(&self) -> (c: MaxCountUInt) {
        self.count
    }
}

impl Counter for ItemsCount {
    open spec fn kind_spec() -> KnownCounterKind {
        KnownCounterKind::Items
    }

    closed spec fn count_spec(&self) -> MaxCountUInt {
        self.count
    }

    fn kind() -> (k: KnownCounterKind) {
        KnownCounterKind::Items
    }

    fn count(&self) -> (c: MaxCountUInt) {
        self.count
    }
}

impl BytesCount {
    /// Count N bytes.
    pub fn new<N: CountUInt>(count: N) -> (r: Self)
        ensures
            r.count_spec() as int == count.as_count(),
    {
        BytesCount { count: count.into_max_uint() }
    }

    /// Counts the static size of a type.
    pub fn of<T>() -> (r: Self)
        ensures
            r.count_spec() as nat == size_of::<T>(),
    {
        BytesCount { count: core::mem::size_of::<T>() as u64 }
    }

    /// Counts the runtime size of a value, including dynamically-sized ones.
    ///
    /// The count always fits: a value's size fits in `usize`, and
    /// [`MaxCountUInt`] is at least as wide, so widening never truncates.
    pub fn of_val<T: ?Sized>(val: &T) -> (r: Self)
        ensures
            r.count_spec() as nat == spec_size_of_val::<T>(val),
    {
        BytesCount { count: core::mem::size_of_val(val) as u64 }
    }

    /// Counts the bytes of a sequence of items: element size times element
    /// count.
    pub fn of_iter<T>(items: &[T]) -> (r: Self)
        ensures
            r.count_spec() as nat == items@.len() * size_of::<T>(),
            r.count_spec() as nat == spec_size_of_val::<[T]>(items),
    {
        Self::of_val(items)
    }

    /// Counts the bytes of a string slice: its UTF-8 byte length.
    pub fn of_str(s: &str) -> (r: Self)
        ensures
            r.count_spec() as nat == s.spec_bytes().len(),
    {
        BytesCount { count: s.as_bytes().len() as u64 }
    }

    /// Counts the bytes of a slice. The result always equals
    /// [`BytesCount::of_val`] on the same slice.
    pub fn of_slice<T>(s: &[T]) -> (r: Self)
        ensures
            r.count_spec() as nat == spec_size_of_val::<[T]>(s),
            r.count_spec() as nat == s@.len() * size_of::<T>(),
    {
        Self::of_val(s)
    }
}

impl CharsCount {
    /// Count N Unicode code points.
    pub fn new<N: CountUInt>(count: N) -> (r: Self)
        ensures
            r.count_spec() as int == count.as_count(),
    {
        CharsCount { count: count.into_max_uint() }
    }

    /// Counts the Unicode code points of a string slice — not its byte
    /// length.
    pub fn of_str(s: &str) -> (r: Self)
        ensures
            r.count_spec() as nat == s@.len(),
    {
        CharsCount { count: s.unicode_len() as u64 }
    }
}

impl ItemsCount {
    /// Count N items.
    pub fn new<N: CountUInt>(count: N) -> (r: Self)
        ensures
            r.count_spec() as int == count.as_count(),
    {
        ItemsCount { count: count.into_max_uint() }
    }
}

impl PartialOrd for BytesCount {
    fn partial_cmp(&self, other: &Self) -> (r: Option<Ordering>) {
        if self.count < other.count {
            Some(Ordering::Less)
        } else if self.count == other.count {
            Some(Ordering::Equal)
        } else {
            Some(Ordering::Greater)
        }
    }
}

impl vstd::std_specs::cmp::PartialOrdSpecImpl for BytesCount {
    open spec fn obeys_partial_cmp_spec() -> bool {
        true
    }

    open spec fn partial_cmp_spec(&self, other: &Self) -> Option<Ordering> {
        if self.count_spec() < other.count_spec() {
            Some(Ordering::Less)
        } else if self.count_spec() == other.count_spec() {
            Some(Ordering::Equal)
        } else {
            Some(Ordering::Greater)
        }
    }
}

impl PartialOrd for CharsCount {
    fn partial_cmp(&self, other: &Self) -> (r: Option<Ordering>) {
        if self.count < other.count {
            Some(Ordering::Less)
        } else if self.count == other.count {
            Some(Ordering::Equal)
        } else {
            Some(Ordering::Greater)
        }
    }
}

impl vstd::std_specs::cmp::PartialOrdSpecImpl for CharsCount {
    open spec fn obeys_partial_cmp_spec() -> bool {
        true
    }

    open spec fn partial_cmp_spec(&self, other: &Self) -> Option<Ordering> {
        if self.count_spec() < other.count_spec() {
            Some(Ordering::Less)
        } else if self.count_spec() == other.count_spec() {
            Some(Ordering::Equal)
        } else {
            Some(Ordering::Greater)
        }
    }
}

impl PartialOrd for ItemsCount {
    fn partial_cmp(&self, other: &Self) -> (r: Option<Ordering>) {
        if self.count < other.count {
            Some(Ordering::Less)
        } else if self.count == other.count {
            Some(Ordering::Equal)
        } else {
            Some(Ordering::Greater)
        }
    }
}

impl vstd::std_specs::cmp::PartialOrdSpecImpl for ItemsCount {
    open spec fn obeys_partial_cmp_spec() -> bool {
        true
    }

    open spec fn partial_cmp_spec(&self, other: &Self) -> Option<Ordering> {
        if self.count_spec() < other.count_spec() {
            Some(Ordering::Less)
        } else if self.count_spec() == other.count_spec() {
            Some(Ordering::Equal)
        } else {
            Some(Ordering::Greater)
        }
    }
}

/// Counting a slice with [`BytesCount::of_slice`] agrees with measuring it
/// as a value with [`BytesCount::of_val`]: the byte footprint of a slice is
/// its length times the element size, so both contracts pin the same count
/// for any slice.
pub proof fn lemma_of_slice_matches_of_val<T>(s: &[T])
    ensures
        spec_size_of_val::<[T]>(s) == s@.len() * size_of::<T>(),
{
}

/// Ordering and equality on [`BytesCount`] agree exactly with numeric
/// ordering and equality of the underlying count, and so form a total
/// order: reflexive, antisymmetric and transitive.
pub proof fn lemma_bytes_count_order(a: BytesCount, b: BytesCount, c: BytesCount)
    ensures
        (a == b) <==> (a.count_spec() == b.count_spec()),
        a.partial_cmp_spec(&b) == Some(Ordering::Less) <==> a.count_spec() < b.count_spec(),
        a.partial_cmp_spec(&b) == Some(Ordering::Equal) <==> a.count_spec() == b.count_spec(),
        a.partial_cmp_spec(&b) == Some(Ordering::Greater) <==> a.count_spec() > b.count_spec(),
        a.partial_cmp_spec(&a) == Some(Ordering::Equal),
        a.partial_cmp_spec(&b) == Some(Ordering::Less) && b.partial_cmp_spec(&c) == Some(
            Ordering::Less,
        ) ==> a.partial_cmp_spec(&c) == Some(Ordering::Less),
        a.partial_cmp_spec(&b) == Some(Ordering::Less) ==> b.partial_cmp_spec(&a) == Some(
            Ordering::Greater,
        ),
{
}

/// Ordering and equality on [`CharsCount`] agree exactly with numeric
/// ordering and equality of the underlying count, and so form a total
/// order: reflexive, antisymmetric and transitive.
pub proof fn lemma_chars_count_order(a: CharsCount, b: CharsCount, c: CharsCount)
    ensures
        (a == b) <==> (a.count_spec() == b.count_spec()),
        a.partial_cmp_spec(&b) == Some(Ordering::Less) <==> a.count_spec() < b.count_spec(),
        a.partial_cmp_spec(&b) == Some(Ordering::Equal) <==> a.count_spec() == b.count_spec(),
        a.partial_cmp_spec(&b) == Some(Ordering::Greater) <==> a.count_spec() > b.count_spec(),
        a.partial_cmp_spec(&a) == Some(Ordering::Equal),
        a.partial_cmp_spec(&b) == Some(Ordering::Less) && b.partial_cmp_spec(&c) == Some(
            Ordering::Less,
        ) ==> a.partial_cmp_spec(&c) == Some(Ordering::Less),
        a.partial_cmp_spec(&b) == Some(Ordering::Less) ==> b.partial_cmp_spec(&a) == Some(
            Ordering::Greater,
        ),
{
}

/// Ordering and equality on [`ItemsCount`] agree exactly with numeric
/// ordering and equality of the underlying count, and so form a total
/// order: reflexive, antisymmetric and transitive.
pub proof fn lemma_items_count_order(a: ItemsCount, b: ItemsCount, c: ItemsCount)
    ensures
        (a == b) <==> (a.count_spec() == b.count_spec()),
        a.partial_cmp_spec(&b) == Some(Ordering::Less) <==> a.count_spec() < b.count_spec(),
        a.partial_cmp_spec(&b) == Some(Ordering::Equal) <==> a.count_spec() == b.count_spec(),
        a.partial_cmp_spec(&b) == Some(Ordering::Greater) <==> a.count_spec() > b.count_spec(),
        a.partial_cmp_spec(&a) == Some(Ordering::Equal),
        a.partial_cmp_spec(&b) == Some(Ordering::Less) && b.partial_cmp_spec(&c) == Some(
            Ordering::Less,
        ) ==> a.partial_cmp_spec(&c) == Some(Ordering::Less),
        a.partial_cmp_spec(&b) == Some(Ordering::Less) ==> b.partial_cmp_spec(&a) == Some(
            Ordering::Greater,
        ),
{
}

} // verus!

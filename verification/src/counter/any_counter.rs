//! Type-erased counters: a kind tag plus a widened count.

use vstd::prelude::*;

use core::cmp::Ordering;

use crate::counter::uint::MaxCountUInt;
use crate::counter::Counter;

verus! {

/// The closed set of counter kinds. Declaration order — bytes, then chars,
/// then items — is canonical and fixes reporting order.
#[derive(Clone, Copy, Debug, PartialEq, Eq, Structural)]
pub enum KnownCounterKind {
    /// Bytes processed per iteration.
    Bytes,
    /// Unicode code points processed per iteration.
    Chars,
    /// Abstract items processed per iteration.
    Items,
}

impl KnownCounterKind {
    /// Position of this kind in the canonical declaration order.
    pub open spec fn idx(self) -> int {
        match self {
            KnownCounterKind::Bytes => 0,
            KnownCounterKind::Chars => 1,
            KnownCounterKind::Items => 2,
        }
    }

    /// Position of this kind in the canonical declaration order.
    pub fn index(&self) -> (i: u8)
        ensures
            i as int == self.idx(),
    {
        match self {
            KnownCounterKind::Bytes => 0,
            KnownCounterKind::Chars => 1,
            KnownCounterKind::Items => 2,
        }
    }

    /// All kinds, in canonical declaration order.
    pub fn all() -> (r: Vec<KnownCounterKind>)
        ensures
            r@ == seq![
                KnownCounterKind::Bytes,
                KnownCounterKind::Chars,
                KnownCounterKind::Items,
            ],
    {
        let mut v: Vec<KnownCounterKind> = Vec::new();
        v.push(KnownCounterKind::Bytes);
        v.push(KnownCounterKind::Chars);
        v.push(KnownCounterKind::Items);
        proof {
            assert(v@ =~= seq![
                KnownCounterKind::Bytes,
                KnownCounterKind::Chars,
                KnownCounterKind::Items,
            ]);
        }
        v
    }
}

/// A counter erased to its kind tag and widened count. Carries no ownership
/// beyond its two scalars.
#[derive(Clone, Copy, Debug, PartialEq, Eq, Structural)]
pub struct AnyCounter {
    kind: KnownCounterKind,
    count: MaxCountUInt,
}

impl AnyCounter {
    /// The kind tag recorded at erasure.
    pub closed spec fn kind_spec(self) -> KnownCounterKind {
        self.kind
    }

    /// The widened count recorded at erasure.
    pub closed spec fn count_spec(self) -> MaxCountUInt {
        self.count
    }

    /// Erases a concrete counter, recording its kind tag and widened count.
    pub fn new<C: Counter>(counter: C) -> (r: AnyCounter)
        ensures
            r.kind_spec() == C::kind_spec(),
            r.count_spec() == counter.count_spec(),
    {
        let kind = C::kind();
        let count = counter.count();
        AnyCounter { kind, count }
    }

    /// The kind tag recorded at erasure.
    pub fn kind(&self) -> (k: KnownCounterKind)
        ensures
            k == self.kind_spec(),
    {
        self.kind
    }

    /// The widened count recorded at erasure.
    pub fn count(&self) -> (c: MaxCountUInt)
        ensures
            c == self.count_spec(),
    {
        self.count
    }
}

impl PartialOrd for AnyCounter {
    fn partial_cmp(&self, other: &Self) -> (r: Option<Ordering>) {
        let si = self.kind.index();
        let oi = other.kind.index();
        if si < oi {
            Some(Ordering::Less)
        } else if oi < si {
            Some(Ordering::Greater)
        } else if self.count < other.count {
            Some(Ordering::Less)
        } else if self.count == other.count {
            Some(Ordering::Equal)
        } else {
            Some(Ordering::Greater)
        }
    }
}

/// Erased counters order by kind first — in canonical declaration order —
/// then by count, so heterogeneous containers sort grouped and
/// deterministically.
impl vstd::std_specs::cmp::PartialOrdSpecImpl for AnyCounter {
    open spec fn obeys_partial_cmp_spec() -> bool {
        true
    }

    open spec fn partial_cmp_spec(&self, other: &Self) -> Option<Ordering> {
        if self.kind_spec().idx() < other.kind_spec().idx() {
            Some(Ordering::Less)
        } else if other.kind_spec().idx() < self.kind_spec().idx() {
            Some(Ordering::Greater)
        } else if self.count_spec() < other.count_spec() {
            Some(Ordering::Less)
        } else if self.count_spec() == other.count_spec() {
            Some(Ordering::Equal)
        } else {
            Some(Ordering::Greater)
        }
    }
}

} // verus!

//! Aggregation of registered counters: at most one current counter per kind.

use vstd::prelude::*;

use crate::counter::any_counter::{AnyCounter, KnownCounterKind};
use crate::counter::into_counter::IntoCounter;
use crate::counter::Counter;

verus! {

/// Maps each [`KnownCounterKind`] to at most one current [`AnyCounter`].
///
/// Registering a counter of a kind already present replaces the prior entry:
/// the last registration for a kind wins, so a fresh per-input counter can be
/// re-registered on every sample while exactly one value per kind stays
/// current.
#[derive(Clone, Copy, Debug)]
pub struct CounterCollection {
    bytes: Option<AnyCounter>,
    chars: Option<AnyCounter>,
    items: Option<AnyCounter>,
}

/// The derived set of kinds currently populated in a [`CounterCollection`] —
/// a read-only view, not independently mutable.
#[derive(Clone, Copy, Debug, PartialEq, Eq, Structural)]
pub struct CounterSet {
    bytes: bool,
    chars: bool,
    items: bool,
}

impl CounterCollection {
    /// The current entry for a kind, if one is registered.
    pub closed spec fn slot(self, kind: KnownCounterKind) -> Option<AnyCounter> {
        match kind {
            KnownCounterKind::Bytes => self.bytes,
            KnownCounterKind::Chars => self.chars,
            KnownCounterKind::Items => self.items,
        }
    }

    /// Each slot, when populated, holds a counter of its own kind.
    pub open spec fn wf(self) -> bool {
        forall|k: KnownCounterKind|
            (#[trigger] self.slot(k)) is Some ==> self.slot(k)->Some_0.kind_spec() == k
    }

    /// The set of currently populated kinds.
    pub open spec fn populated(self) -> Set<KnownCounterKind> {
        Set::new(|k: KnownCounterKind| self.slot(k) is Some)
    }

    /// A collection with no registered counters.
    pub fn new() -> (r: CounterCollection)
        ensures
            r.wf(),
            forall|k: KnownCounterKind| #[trigger] r.slot(k) is None,
    {
        CounterCollection { bytes: None, chars: None, items: None }
    }

    /// Registers an erased counter: its kind's slot now holds exactly this
    /// counter, replacing any prior entry, and every other kind's slot is
    /// unchanged.
    pub fn insert(&mut self, counter: AnyCounter)
        requires
            old(self).wf(),
        ensures
            final(self).wf(),
            final(self).slot(counter.kind_spec()) == Some(counter),
            forall|k: KnownCounterKind|
                k != counter.kind_spec() ==> #[trigger] final(self).slot(k) == old(self).slot(k),
    {
        match counter.kind() {
            KnownCounterKind::Bytes => self.bytes = Some(counter),
            KnownCounterKind::Chars => self.chars = Some(counter),
            KnownCounterKind::Items => self.items = Some(counter),
        }
        proof {
            assert forall|k: KnownCounterKind| (#[trigger] self.slot(k)) is Some implies self.slot(
                k,
            )->Some_0.kind_spec() == k by {
                if self.slot(k) == old(self).slot(k) {
                    assert(old(self).slot(k) is Some ==> old(self).slot(k)->Some_0.kind_spec()
                        == k);
                }
            }
        }
    }

    /// Registers a concrete counter, erasing it first.
    pub fn register<C: Counter>(&mut self, counter: C)
        requires
            old(self).wf(),
        ensures
            final(self).wf(),
            final(self).slot(C::kind_spec()) is Some,
            final(self).slot(C::kind_spec())->Some_0.count_spec() == counter.count_spec(),
            forall|k: KnownCounterKind|
                k != C::kind_spec() ==> #[trigger] final(self).slot(k) == old(self).slot(k),
    {
        self.insert(AnyCounter::new(counter));
    }

    /// Registers any value convertible into a counter, using its default
    /// mapping.
    pub fn register_from<N: IntoCounter>(&mut self, value: N)
        requires
            old(self).wf(),
        ensures
            final(self).wf(),
            final(self).slot(<N::Counter as Counter>::kind_spec()) is Some,
            final(self).slot(<N::Counter as Counter>::kind_spec())->Some_0.count_spec()
                == value.count_into(),
            forall|k: KnownCounterKind|
                k != <N::Counter as Counter>::kind_spec() ==> #[trigger] final(self).slot(k)
                    == old(self).slot(k),
    {
        self.register(value.into_counter());
    }

    /// The current entry for a kind, if one is registered.
    pub fn get(&self, kind: KnownCounterKind) -> (r: Option<AnyCounter>)
        ensures
            r == self.slot(kind),
    {
        match kind {
            KnownCounterKind::Bytes => self.bytes,
            KnownCounterKind::Chars => self.chars,
            KnownCounterKind::Items => self.items,
        }
    }

    /// The derived set of populated kinds.
    pub fn counter_set(&self) -> (r: CounterSet)
        ensures
            forall|k: KnownCounterKind| #[trigger] r.contains_spec(k) <==> self.slot(k) is Some,
            r.set_spec() == self.populated(),
    {
        let r = CounterSet {
            bytes: self.bytes.is_some(),
            chars: self.chars.is_some(),
            items: self.items.is_some(),
        };
        proof {
            assert forall|k: KnownCounterKind| #[trigger]
                r.contains_spec(k) <==> self.slot(k) is Some by {
            }
            assert(r.set_spec() =~= self.populated());
        }
        r
    }
}

impl CounterSet {
    /// Whether this set contains a kind.
    pub closed spec fn contains_spec(self, kind: KnownCounterKind) -> bool {
        match kind {
            KnownCounterKind::Bytes => self.bytes,
            KnownCounterKind::Chars => self.chars,
            KnownCounterKind::Items => self.items,
        }
    }

    /// The kinds in this set, as a mathematical set.
    pub open spec fn set_spec(self) -> Set<KnownCounterKind> {
        Set::new(|k: KnownCounterKind| self.contains_spec(k))
    }

    /// The kinds in this set, in canonical declaration order.
    pub open spec fn ordered_kinds(self) -> Seq<KnownCounterKind> {
        (if self.contains_spec(KnownCounterKind::Bytes) {
            seq![KnownCounterKind::Bytes]
        } else {
            Seq::empty()
        }) + (if self.contains_spec(KnownCounterKind::Chars) {
            seq![KnownCounterKind::Chars]
        } else {
            Seq::empty()
        }) + (if self.contains_spec(KnownCounterKind::Items) {
            seq![KnownCounterKind::Items]
        } else {
            Seq::empty()
        })
    }

    /// Whether this set contains a kind.
    pub fn contains(&self, kind: KnownCounterKind) -> (r: bool)
        ensures
            r == self.contains_spec(kind),
    {
        match kind {
            KnownCounterKind::Bytes => self.bytes,
            KnownCounterKind::Chars => self.chars,
            KnownCounterKind::Items => self.items,
        }
    }

    /// The populated kinds, always in canonical declaration order — bytes,
    /// then chars, then items — regardless of registration order.
    pub fn kinds(&self) -> (r: Vec<KnownCounterKind>)
        ensures
            r@ == self.ordered_kinds(),
    {
        let mut v: Vec<KnownCounterKind> = Vec::new();
        if self.bytes {
            v.push(KnownCounterKind::Bytes);
        }
        if self.chars {
            v.push(KnownCounterKind::Chars);
        }
        if self.items {
            v.push(KnownCounterKind::Items);
        }
        proof {
            assert(v@ =~= self.ordered_kinds());
        }
        v
    }
}

/// The populated kinds of a [`CounterSet`] are always reported in canonical
/// declaration order: each kind in [`CounterSet::ordered_kinds`] appears
/// exactly when the set contains it, and the sequence is strictly ordered by
/// kind position, so the order never depends on registration order.
pub proof fn lemma_report_order_canonical(s: CounterSet)
    ensures
        forall|k: KnownCounterKind| s.ordered_kinds().contains(k) <==> s.contains_spec(k),
        forall|i: int, j: int|
            0 <= i < j < s.ordered_kinds().len() ==> s.ordered_kinds()[i].idx()
                < s.ordered_kinds()[j].idx(),
{
    let ks = s.ordered_kinds();
    assert forall|k: KnownCounterKind| ks.contains(k) <==> s.contains_spec(k) by {
        if s.contains_spec(k) {
            match k {
                KnownCounterKind::Bytes => {
                    assert(ks[0] == k);
                },
                KnownCounterKind::Chars => {
                    if s.contains_spec(KnownCounterKind::Bytes) {
                        assert(ks[1] == k);
                    } else {
                        assert(ks[0] == k);
                    }
                },
                KnownCounterKind::Items => {
                    assert(ks[ks.len() - 1] == k);
                },
            }
        } else {
            assert forall|i: int| 0 <= i < ks.len() implies ks[i] != k by {}
        }
    }
}

} // verus!

//! One-shot static singleton allocation.
//!
//! A [`StaticSlot`] stands for a reserved, process-lifetime storage cell
//! that has not been written yet; [`static_init`] consumes the slot and a
//! constructed value and yields a [`StaticRef`], the singleton occupying
//! that cell. Because the slot is moved into `static_init`, initializing
//! the same cell twice cannot even be written down: the second use of the
//! slot is a move error. A [`SlotFactory`] reserves slots with
//! pairwise-distinct identities, so the singletons built from them never
//! alias one another.

use vstd::prelude::*;

verus! {

/// A reserved, uninitialized static storage cell. Its identity models the
/// cell's fixed address. Slots come only from [`SlotFactory::claim`] and
/// are consumed by [`static_init`], so each cell is written at most once.
pub struct StaticSlot {
    id: u64,
}

impl StaticSlot {
    /// The identity (fixed address) of the reserved cell.
    pub closed spec fn id_spec(self) -> u64 {
        self.id
    }

    pub fn id(&self) -> (r: u64)
        ensures
            r == self.id_spec(),
    {
        self.id
    }
}

/// An initialized static singleton: the constructed value together with
/// the identity of the cell it occupies. Models the exclusive reference a
/// static allocator returns: its identity is stable for the remainder of
/// execution, so it may be embedded in other static structures.
pub struct StaticRef<T> {
    id: u64,
    value: T,
}

impl<T> StaticRef<T> {
    /// The identity of the cell this singleton occupies.
    pub closed spec fn id_spec(self) -> u64 {
        self.id
    }

    /// The value the cell was initialized with.
    pub closed spec fn value_spec(self) -> T {
        self.value
    }

    pub fn id(&self) -> (r: u64)
        ensures
            r == self.id_spec(),
    {
        self.id
    }

    /// Reads the singleton. The cell is necessarily initialized: a
    /// `StaticRef` only exists as the result of [`static_init`].
    pub fn get(&self) -> (r: &T)
        ensures
            *r == self.value_spec(),
    {
        &self.value
    }
}

/// One-shot static initialization: consumes the reserved slot and the
/// constructed value, writes the value into the cell, and returns the
/// singleton. The slot is moved, so a second initialization of the same
/// cell is rejected at compile time rather than detected at run time;
/// the returned singleton keeps the slot's identity.
pub fn static_init<T>(slot: StaticSlot, value: T) -> (r: StaticRef<T>)
    ensures
        r.id_spec() == slot.id_spec(),
        r.value_spec() == value,
{
    StaticRef { id: slot.id, value }
}

/// Reserves static storage cells, giving every cell a fresh identity.
/// All slots a board's boot code initializes come from one factory, so
/// their identities are pairwise distinct.
pub struct SlotFactory {
    next_id: u64,
    issued: Ghost<Seq<u64>>,
}

impl SlotFactory {
    /// The identity the next claimed slot will get.
    pub closed spec fn next_id_spec(self) -> u64 {
        self.next_id
    }

    /// The identities of every slot this factory has issued, in order.
    pub closed spec fn issued(self) -> Seq<u64> {
        self.issued@
    }

    /// Every issued identity lies below the next one, and the issued
    /// identities are strictly increasing.
    pub closed spec fn wf(self) -> bool {
        &&& (forall|i: int| 0 <= i < self.issued@.len() ==> self.issued@[i] < self.next_id)
        &&& (forall|i: int, j: int|
            0 <= i < j < self.issued@.len() ==> self.issued@[i] < self.issued@[j])
    }

    pub fn new() -> (f: SlotFactory)
        ensures
            f.wf(),
            f.issued() == Seq::<u64>::empty(),
            f.next_id_spec() == 0,
    {
        SlotFactory { next_id: 0, issued: Ghost(Seq::empty()) }
    }

    /// Reserves one cell. The new slot's identity is fresh: it differs
    /// from every identity this factory issued before.
    pub fn claim(&mut self) -> (s: StaticSlot)
        requires
            old(self).wf(),
            old(self).next_id_spec() < u64::MAX,
        ensures
            final(self).wf(),
            s.id_spec() == old(self).next_id_spec(),
            final(self).issued() == old(self).issued().push(s.id_spec()),
            final(self).next_id_spec() == old(self).next_id_spec() + 1,
    {
        let id: u64 = self.next_id;
        self.next_id = self.next_id + 1;
        self.issued = Ghost(self.issued@.push(id));
        StaticSlot { id }
    }
}

/// Slots issued by one factory have pairwise-distinct identities: however
/// many components are finalized, and in whatever order, the static
/// singletons built from those slots are distinct and non-aliasing.
pub proof fn lemma_issued_ids_distinct(f: SlotFactory)
    requires
        f.wf(),
    ensures
        forall|i: int, j: int|
            0 <= i < j < f.issued().len() ==> f.issued()[i] != f.issued()[j],
{
}

/// Singletons initialized from distinct slots never claim the same
/// identity. (Initializing one slot twice is not expressible at all:
/// [`static_init`] consumes the slot.)
pub proof fn lemma_distinct_slots_distinct_refs<T, U>(
    slot_a: StaticSlot,
    a: StaticRef<T>,
    slot_b: StaticSlot,
    b: StaticRef<U>,
)
    requires
        a.id_spec() == slot_a.id_spec(),
        b.id_spec() == slot_b.id_spec(),
        slot_a.id_spec() != slot_b.id_spec(),
    ensures
        a.id_spec() != b.id_spec(),
{
}

/// A singleton is determined by its identity and its value: two
/// `StaticRef`s that agree on both are the same reference.
pub proof fn lemma_static_ref_determined<T>(a: StaticRef<T>, b: StaticRef<T>)
    requires
        a.id_spec() == b.id_spec(),
        a.value_spec() == b.value_spec(),
    ensures
        a == b,
{
}

} // verus!

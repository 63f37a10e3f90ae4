//! The handle store: generation-tagged handles to foreign values.
//!
//! A handle is the `u64` form of a slot-map key. The store maps each live
//! handle to the id under which the foreign side keeps the value rooted.
use vstd::prelude::*;
use crate::slots::{
    issued_of, slot_map_get, slot_map_insert, slot_map_len, slot_map_new, slot_map_remove, slots_of,
    Slots, ISSUE_BOUND, OCCUPIED_BIT,
};

verus! {

/// The most live handles a store holds at once.
pub const MAX_HANDLES: usize = 0xffff_fffd;

/// Whether `h` has the shape of a handle that a store hands out.
pub open spec fn handle_shaped(h: u64) -> bool {
    h & OCCUPIED_BIT != 0
}

pub struct Store {
    slots: Slots,
}

impl View for Store {
    type V = Map<u64, u64>;

    closed spec fn view(&self) -> Map<u64, u64> {
        slots_of(self.slots)
    }
}

impl Store {
    /// Every handle that the store has handed out, live or disposed.
    pub closed spec fn issued(&self) -> Set<u64> {
        issued_of(self.slots)
    }

    /// The store's invariant: finitely many entries, each under a handle of
    /// the shape that the store hands out, and finitely many handles issued,
    /// the live ones among them.
    pub closed spec fn wf(&self) -> bool {
        &&& self@.dom().finite()
        &&& self.issued().finite()
        &&& forall|h: u64| #[trigger] self@.contains_key(h) ==> handle_shaped(h) && self.issued().contains(h)
    }

    /// An empty store.
    pub fn new() -> (s: Store)
        ensures
            s.wf(),
            s@ == Map::<u64, u64>::empty(),
            s.issued() == Set::<u64>::empty(),
    {
        Store { slots: slot_map_new() }
    }

    /// The number of live handles.
    pub fn len(&self) -> (r: usize)
        requires
            self.wf(),
        ensures
            r == self@.len(),
    {
        slot_map_len(&self.slots)
    }

    /// Stores `value` under a handle that no live entry has and, while fewer
    /// than `ISSUE_BOUND` handles have been issued, that was never issued.
    pub fn insert(&mut self, value: u64) -> (h: u64)
        requires
            old(self).wf(),
            old(self)@.len() <= MAX_HANDLES,
        ensures
            final(self).wf(),
            !old(self)@.contains_key(h),
            handle_shaped(h),
            final(self)@ == old(self)@.insert(h, value),
            final(self).issued() == old(self).issued().insert(h),
            old(self).issued().len() < ISSUE_BOUND as nat ==> !old(self).issued().contains(h),
    {
        let h = slot_map_insert(&mut self.slots, value);
        h
    }

    /// The value under `h`, if `h` is live; the store is left as it is.
    pub fn get(&self, h: u64) -> (r: Option<u64>)
        requires
            self.wf(),
        ensures
            r == self@.get(h),
    {
        if h & OCCUPIED_BIT == 0 {
            None
        } else {
            slot_map_get(&self.slots, h)
        }
    }

    /// Takes the entry under `h` out of the store and returns its value; a
    /// handle that is not live leaves the store unchanged.
    pub fn remove(&mut self, h: u64) -> (r: Option<u64>)
        requires
            old(self).wf(),
        ensures
            final(self).wf(),
            r == old(self)@.get(h),
            final(self)@ == old(self)@.remove(h),
            final(self).issued() == old(self).issued(),
    {
        if h & OCCUPIED_BIT == 0 {
            assert(old(self)@.remove(h) =~= old(self)@);
            None
        } else {
            slot_map_remove(&mut self.slots, h)
        }
    }
}

/// A change to a store, as `insert` or `remove` makes it.
pub enum StoreOp {
    Insert { handle: u64, value: u64 },
    Remove { handle: u64 },
}

/// Whether `op` removes the entry under `h`.
pub open spec fn removes(op: StoreOp, h: u64) -> bool {
    op matches StoreOp::Remove { handle } && handle == h
}

/// The store's map after `op`.
pub open spec fn apply_op(m: Map<u64, u64>, op: StoreOp) -> Map<u64, u64> {
    match op {
        StoreOp::Insert { handle, value } => m.insert(handle, value),
        StoreOp::Remove { handle } => m.remove(handle),
    }
}

/// The handles issued after `op`.
pub open spec fn issue_op(issued: Set<u64>, op: StoreOp) -> Set<u64> {
    match op {
        StoreOp::Insert { handle, value } => issued.insert(handle),
        StoreOp::Remove { handle } => issued,
    }
}

/// The store's map after `ops`, in order.
pub open spec fn apply_ops(m: Map<u64, u64>, ops: Seq<StoreOp>) -> Map<u64, u64>
    decreases ops.len(),
{
    if ops.len() == 0 {
        m
    } else {
        apply_ops(apply_op(m, ops[0]), ops.drop_first())
    }
}

/// Whether `ops` can be made, in order, on a store that has issued
/// `issued`: `insert` puts each value under a handle never issued before,
/// as it does while fewer than `ISSUE_BOUND` handles have been issued.
pub open spec fn ops_possible(issued: Set<u64>, ops: Seq<StoreOp>) -> bool
    decreases ops.len(),
{
    if ops.len() == 0 {
        true
    } else {
        &&& (ops[0] matches StoreOp::Insert { handle, value } ==> !issued.contains(handle))
        &&& ops_possible(issue_op(issued, ops[0]), ops.drop_first())
    }
}

/// A value stays under its handle until the handle is disposed: after it is
/// inserted under a new handle, and after any further insertions and
/// removals of other handles, `get` finds the value unchanged.
pub proof fn lemma_value_kept_until_disposed(
    m: Map<u64, u64>,
    issued: Set<u64>,
    h: u64,
    v: u64,
    ops: Seq<StoreOp>,
)
    requires
        !issued.contains(h),
        ops_possible(issued.insert(h), ops),
        forall|i: int| 0 <= i < ops.len() ==> !removes(#[trigger] ops[i], h),
    ensures
        apply_ops(m.insert(h, v), ops).get(h) == Some(v),
{
    lemma_value_kept(m.insert(h, v), issued.insert(h), h, v, ops);
}

proof fn lemma_value_kept(m: Map<u64, u64>, issued: Set<u64>, h: u64, v: u64, ops: Seq<StoreOp>)
    requires
        m.get(h) == Some(v),
        issued.contains(h),
        ops_possible(issued, ops),
        forall|i: int| 0 <= i < ops.len() ==> !removes(#[trigger] ops[i], h),
    ensures
        apply_ops(m, ops).get(h) == Some(v),
    decreases ops.len(),
{
    if ops.len() > 0 {
        let rest = ops.drop_first();
        assert(forall|i: int| 0 <= i < rest.len() ==> rest[i] == ops[i + 1]);
        assert(!removes(ops[0], h));
        lemma_value_kept(apply_op(m, ops[0]), issue_op(issued, ops[0]), h, v, rest);
    }
}

/// A disposed handle stays gone: right after `remove`, `get` finds nothing
/// under it, a second `remove` finds nothing and changes nothing, and no
/// later insertion or removal brings it back, since every later insertion
/// takes a handle never issued before.
pub proof fn lemma_disposed_stays_gone(m: Map<u64, u64>, issued: Set<u64>, h: u64, ops: Seq<StoreOp>)
    requires
        issued.contains(h),
        ops_possible(issued, ops),
    ensures
        m.remove(h).get(h) is None,
        m.remove(h).remove(h) == m.remove(h),
        apply_ops(m.remove(h), ops).get(h) is None,
{
    assert(m.remove(h).remove(h) =~= m.remove(h));
    lemma_stays_gone(m.remove(h), issued, h, ops);
}

proof fn lemma_stays_gone(m: Map<u64, u64>, issued: Set<u64>, h: u64, ops: Seq<StoreOp>)
    requires
        !m.contains_key(h),
        issued.contains(h),
        ops_possible(issued, ops),
    ensures
        apply_ops(m, ops).get(h) is None,
    decreases ops.len(),
{
    if ops.len() > 0 {
        let rest = ops.drop_first();
        assert(forall|i: int| 0 <= i < rest.len() ==> rest[i] == ops[i + 1]);
        lemma_stays_gone(apply_op(m, ops[0]), issue_op(issued, ops[0]), h, rest);
    }
}

} // verus!

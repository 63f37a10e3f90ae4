//! The slot map of the `slotmap` crate, as the handle store uses it.
//!
//! Keys travel as the `u64` that `KeyData::as_ffi` gives: the slot's version
//! in the upper half and its index in the lower half. An occupied slot always
//! has an odd version, so every key handed out has `OCCUPIED_BIT` set.
use vstd::prelude::*;
use slotmap::{DefaultKey, Key, KeyData, SlotMap};

verus! {

/// A slot map of the `slotmap` crate from keys to foreign value ids. Verus
/// does not take a declaration of `SlotMap` (its key bound is an outside
/// trait), so the map is held here and seen only through `slots_of`.
#[verifier::external_body]
pub struct Slots {
    map: SlotMap<DefaultKey, u64>,
}

/// The lowest bit of a key's version: set in the key of every occupied slot.
pub const OCCUPIED_BIT: u64 = 0x1_0000_0000;

/// What a slot map holds: each live key, as its `as_ffi` value, with its value.
pub uninterp spec fn slots_of(m: Slots) -> Map<u64, u64>;

/// Every key that `insert` has handed out on a slot map, live or removed.
pub uninterp spec fn issued_of(m: Slots) -> Set<u64>;

/// The fewest keys handed out after which a slot's version may wrap: a slot
/// takes each odd version in turn, so below this count no key comes twice.
pub const ISSUE_BOUND: u64 = 0x8000_0000;

/// Relies on `SlotMap::new`: a new slot map holds nothing.
#[verifier::external_body]
pub(crate) fn slot_map_new() -> (r: Slots)
    ensures
        slots_of(r) =~= Map::empty(),
        issued_of(r) =~= Set::empty(),
{
    Slots { map: SlotMap::new() }
}

/// Relies on `SlotMap::insert` and `KeyData::as_ffi`: the value goes into a
/// free slot, under a key with an odd version that no live entry has, and
/// nothing else changes. It panics only when 2^32 - 1 slots are in use.
/// Each insertion into a slot raises its version by two (the removal before
/// it by one, `wrapping_add`), so the key is new until some slot has taken
/// 2^31 insertions, which takes at least that many keys handed out.
#[verifier::external_body]
pub(crate) fn slot_map_insert(m: &mut Slots, value: u64) -> (k: u64)
    requires
        slots_of(*old(m)).len() < 0xffff_fffe,
    ensures
        !slots_of(*old(m)).contains_key(k),
        k & OCCUPIED_BIT != 0,
        slots_of(*final(m)) == slots_of(*old(m)).insert(k, value),
        issued_of(*final(m)) == issued_of(*old(m)).insert(k),
        issued_of(*old(m)).finite() && issued_of(*old(m)).len() < ISSUE_BOUND as nat
            ==> !issued_of(*old(m)).contains(k),
{
    m.map.insert(value).data().as_ffi()
}

/// Relies on `KeyData::from_ffi` and `SlotMap::get`: for a key with an odd
/// version, `from_ffi` gives back that key, and `get` finds its value if the
/// slot holds that version.
#[verifier::external_body]
pub(crate) fn slot_map_get(m: &Slots, k: u64) -> (r: Option<u64>)
    requires
        k & OCCUPIED_BIT != 0,
    ensures
        r == slots_of(*m).get(k),
{
    m.map.get(KeyData::from_ffi(k).into()).copied()
}

/// Relies on `KeyData::from_ffi` and `SlotMap::remove`: the entry under the
/// key, if any, leaves the map and is returned; nothing else changes.
#[verifier::external_body]
pub(crate) fn slot_map_remove(m: &mut Slots, k: u64) -> (r: Option<u64>)
    requires
        k & OCCUPIED_BIT != 0,
    ensures
        r == slots_of(*old(m)).get(k),
        slots_of(*final(m)) == slots_of(*old(m)).remove(k),
        issued_of(*final(m)) == issued_of(*old(m)),
{
    m.map.remove(KeyData::from_ffi(k).into())
}

/// Relies on `SlotMap::len`: the number of live entries.
#[verifier::external_body]
pub(crate) fn slot_map_len(m: &Slots) -> (r: usize)
    ensures
        r == slots_of(*m).len(),
{
    m.map.len()
}

} // verus!

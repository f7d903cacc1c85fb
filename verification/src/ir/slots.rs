//! The storage of the IR context: a `slotmap` slot map that owns the values,
//! a secondary map that holds, for a value, the list of its users, and a
//! `bimap` map between the handles of interned constants and the constants.
//!
//! A handle is the key of its value turned into a number with
//! `KeyData::as_ffi`: the key's version in the high 32 bits and its slot
//! index in the low 32 bits. A key of a value held by a slot map always has
//! an odd version.
use crate::ir::context::Value;
use crate::ir::value::ValueID;
use bimap::BiHashMap;
use slotmap::{DefaultKey, Key, KeyData, SecondaryMap, SlotMap};
use vstd::prelude::*;

verus! {

/// The slot map that owns the values. Verus refuses a declaration of
/// `SlotMap` (its key parameter is bound by the crate's `Key` trait), so it
/// is held here out of Verus's sight; [`slot_values`] names its contents.
#[verifier::external_body]
pub struct ValueSlots {
    map: SlotMap<DefaultKey, Value>,
}

/// The secondary map that holds the lists of users, held the same way;
/// [`user_lists`] names its contents.
#[verifier::external_body]
pub struct UserLists {
    map: SecondaryMap<DefaultKey, Vec<ValueID>>,
}

/// The slot index of the key a handle number stands for.
pub open spec fn key_index(id: u64) -> u64 {
    id % 0x1_0000_0000
}

/// The handle number is one of a key held by a slot map: its version, in
/// the high 32 bits, is odd.
pub open spec fn is_key_id(id: u64) -> bool {
    (id / 0x1_0000_0000) % 2 == 1
}

/// The values a slot map holds, by the numbers of their keys.
pub uninterp spec fn slot_values(m: ValueSlots) -> Map<u64, Value>;

/// The lists a secondary map holds, by the numbers of their keys.
pub uninterp spec fn user_lists(m: UserLists) -> Map<u64, Seq<ValueID>>;

/// `SlotMap::new`: an empty slot map.
#[verifier::external_body]
pub(crate) fn values_new() -> (r: ValueSlots)
    ensures
        slot_values(r).dom() == Set::<u64>::empty(),
{
    ValueSlots { map: SlotMap::new() }
}

/// `SlotMap::insert`: stores the value under a key that no value holds,
/// whose version is odd and whose slot index is below `u32::MAX` and is
/// the index of no key held (a vacant slot is reused, or a new one is
/// pushed). It panics only when the map is full, which `requires` rules out.
#[verifier::external_body]
pub(crate) fn values_insert(m: &mut ValueSlots, value: Value) -> (r: ValueID)
    requires
        slot_values(*old(m)).dom().finite(),
        slot_values(*old(m)).dom().len() + 2 < u32::MAX,
    ensures
        !slot_values(*old(m)).dom().contains(r.id()),
        is_key_id(r.id()),
        key_index(r.id()) < u32::MAX,
        forall|j: u64| #[trigger] slot_values(*old(m)).dom().contains(j) ==> key_index(j) != key_index(r.id()),
        slot_values(*final(m)) == slot_values(*old(m)).insert(r.id(), value),
{
    ValueID::new(m.map.insert(value).data().as_ffi())
}

/// `SlotMap::len`: the number of values held.
#[verifier::external_body]
pub(crate) fn values_len(m: &ValueSlots) -> (r: usize)
    ensures
        r == slot_values(*m).dom().len(),
{
    m.map.len()
}

/// `SlotMap::get`: the value held under the key of a handle number, if any.
#[verifier::external_body]
pub(crate) fn values_get(m: &ValueSlots, id: ValueID) -> (r: Option<&Value>)
    ensures
        is_key_id(id.id()) ==> r == (if slot_values(*m).dom().contains(id.id()) {
            Some(&slot_values(*m)[id.id()])
        } else {
            None
        }),
{
    m.map.get(KeyData::from_ffi(id.get()).into())
}

/// `SecondaryMap::new`: an empty secondary map.
#[verifier::external_body]
pub(crate) fn lists_new() -> (r: UserLists)
    ensures
        user_lists(r).dom() == Set::<u64>::empty(),
{
    UserLists { map: SecondaryMap::new() }
}

/// `SecondaryMap::insert`: stores the list under the key of a handle
/// number and gives back the one it replaces. With a key that is not null
/// and whose slot holds no other key, it always stores.
#[verifier::external_body]
pub(crate) fn lists_insert(m: &mut UserLists, id: ValueID, list: Vec<ValueID>) -> (r: Option<Vec<ValueID>>)
    requires
        is_key_id(id.id()),
        key_index(id.id()) < u32::MAX,
        forall|j: u64| #[trigger] user_lists(*old(m)).dom().contains(j) && j != id.id() ==> key_index(j) != key_index(id.id()),
    ensures
        user_lists(*final(m)) == user_lists(*old(m)).insert(id.id(), list@),
        r is Some <==> user_lists(*old(m)).dom().contains(id.id()),
        r matches Some(l) ==> l@ == user_lists(*old(m))[id.id()],
{
    m.map.insert(KeyData::from_ffi(id.get()).into(), list)
}

/// `SecondaryMap::remove`: takes out the list held under the key of a
/// handle number, if any.
#[verifier::external_body]
pub(crate) fn lists_remove(m: &mut UserLists, id: ValueID) -> (r: Option<Vec<ValueID>>)
    requires
        is_key_id(id.id()),
    ensures
        user_lists(*final(m)) == user_lists(*old(m)).remove(id.id()),
        r is Some <==> user_lists(*old(m)).dom().contains(id.id()),
        r matches Some(l) ==> l@ == user_lists(*old(m))[id.id()],
{
    m.map.remove(KeyData::from_ffi(id.get()).into())
}

/// `SecondaryMap::get`: the list held under the key of a handle number, if
/// any.
#[verifier::external_body]
pub(crate) fn lists_get(m: &UserLists, id: ValueID) -> (r: Option<&Vec<ValueID>>)
    ensures
        is_key_id(id.id()) ==> (r is Some <==> user_lists(*m).dom().contains(id.id())),
        is_key_id(id.id()) ==> (r matches Some(l) ==> l@ == user_lists(*m)[id.id()]),
{
    m.map.get(KeyData::from_ffi(id.get()).into())
}

/// The map between the numbers of interned constants' handles and the
/// constants, each written as a tuple of std types (see
/// `crate::ir::context::constant_key`), so that the map compares and hashes
/// them with std's impls. Held out of Verus's sight like the slot map;
/// [`constant_pairs`] names its contents.
#[verifier::external_body]
pub struct ConstantTable {
    map: BiHashMap<u64, (u8, u128, u64, Vec<u8>)>,
}

/// The pairs a constant table holds, from the left value to the right one,
/// with the bytes of the right one by their view.
pub uninterp spec fn constant_pairs(t: ConstantTable) -> Map<u64, (u8, u128, u64, Seq<u8>)>;

/// A tuple by its view.
pub open spec fn key_view(k: (u8, u128, u64, Vec<u8>)) -> (u8, u128, u64, Seq<u8>) {
    (k.0, k.1, k.2, k.3@)
}

/// `BiHashMap::new`: an empty map.
#[verifier::external_body]
pub(crate) fn table_new() -> (r: ConstantTable)
    ensures
        constant_pairs(r).dom() == Set::<u64>::empty(),
{
    ConstantTable { map: BiHashMap::new() }
}

/// `BiHashMap::insert`: adds the pair. With a left value and a right value
/// that no pair holds, nothing is overwritten.
#[verifier::external_body]
pub(crate) fn table_insert(t: &mut ConstantTable, left: u64, right: (u8, u128, u64, Vec<u8>))
    requires
        !constant_pairs(*old(t)).dom().contains(left),
        forall|l: u64| #[trigger] constant_pairs(*old(t)).dom().contains(l) ==> constant_pairs(*old(t))[l] != key_view(right),
    ensures
        constant_pairs(*final(t)) == constant_pairs(*old(t)).insert(left, key_view(right)),
{
    let _ = t.map.insert(left, right);
}

/// `BiHashMap::get_by_right`: the left value paired with the right one, if
/// any.
#[verifier::external_body]
pub(crate) fn table_get_by_right(t: &ConstantTable, right: &(u8, u128, u64, Vec<u8>)) -> (r: Option<u64>)
    ensures
        r matches Some(l) ==> constant_pairs(*t).dom().contains(l) && constant_pairs(*t)[l] == key_view(*right),
        r is None ==> forall|l: u64| #[trigger] constant_pairs(*t).dom().contains(l) ==> constant_pairs(*t)[l] != key_view(*right),
{
    t.map.get_by_right(right).copied()
}

/// `BiHashMap::contains_left`: whether a pair holds the left value.
#[verifier::external_body]
pub(crate) fn table_contains_left(t: &ConstantTable, left: u64) -> (r: bool)
    ensures
        r == constant_pairs(*t).dom().contains(left),
{
    t.map.contains_left(&left)
}

} // verus!

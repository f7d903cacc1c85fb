//! Handles to IR values.
use vstd::prelude::*;

verus! {

/// A handle to a value held by the IR context. One handle, the null one,
/// refers to no value.
#[derive(Debug, Clone, Copy, PartialEq, Eq, Structural, Hash)]
pub struct ValueID {
    raw: u64,
}

impl ValueID {
    /// The number that identifies the value.
    pub closed spec fn id(self) -> u64 {
        self.raw
    }

    /// The null handle's number.
    pub open spec fn null_id() -> u64 {
        u64::MAX
    }

    /// The handle with the given number.
    pub closed spec fn from_id(raw: u64) -> ValueID {
        ValueID { raw }
    }

    /// A handle with the given number.
    pub fn new(raw: u64) -> (r: Self)
        ensures
            r.id() == raw,
            r == ValueID::from_id(raw),
    {
        ValueID { raw }
    }

    /// The handle that refers to no value.
    pub fn null() -> (r: Self)
        ensures
            r.id() == ValueID::null_id(),
    {
        ValueID { raw: u64::MAX }
    }

    /// Whether this is the null handle.
    pub fn is_null(&self) -> (r: bool)
        ensures
            r == (self.id() == ValueID::null_id()),
    {
        self.raw == u64::MAX
    }

    /// The number that identifies the value.
    pub fn get(&self) -> (r: u64)
        ensures
            r == self.id(),
    {
        self.raw
    }
}

/// The handle made from a number has that number.
pub broadcast proof fn lemma_from_id(raw: u64)
    ensures
        #[trigger] ValueID::from_id(raw).id() == raw,
{
}

/// Facts about handles and their numbers.
pub broadcast group group_value_id {
    lemma_from_id,
}

/// Two handles with the same number are the same handle.
pub proof fn lemma_value_id_eq(a: ValueID, b: ValueID)
    requires
        a.id() == b.id(),
    ensures
        a == b,
{
}

} // verus!

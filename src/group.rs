use vstd::prelude::*;

verus! {

/// Raw value reserved for the root allocation group: the group that is active
/// when no other group has been entered.
pub const ROOT_RAW: usize = 1;

/// Identifies an allocation group. A plain copyable value compared by its raw
/// number.
#[derive(Clone, Copy, Debug, PartialEq, Eq, Structural)]
pub struct AllocationGroupId {
    id: usize,
}

impl View for AllocationGroupId {
    type V = usize;

    /// The raw number of the group.
    closed spec fn view(&self) -> usize {
        self.id
    }
}

impl AllocationGroupId {
    /// Builds an identifier from its raw value, without checking that a
    /// registry minted it.
    pub fn from_raw_unchecked(raw: usize) -> (r: Self)
        requires
            raw != 0,
        ensures
            r@ == raw,
    {
        AllocationGroupId { id: raw }
    }

    /// The root allocation group.
    pub fn root() -> (r: Self)
        ensures
            r@ == ROOT_RAW,
    {
        AllocationGroupId { id: ROOT_RAW }
    }

    /// The raw value of this identifier.
    pub fn as_raw(&self) -> (r: usize)
        ensures
            r == self@,
    {
        self.id
    }
}

} // verus!

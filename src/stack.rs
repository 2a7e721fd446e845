use vstd::prelude::*;
use crate::group::{AllocationGroupId, ROOT_RAW};

verus! {

/// Number of groups that a [`GroupStack`] can hold.
pub const CAPACITY: usize = 512;

/// The groups that are currently entered on one thread, innermost last.
///
/// The slots are a fixed array so that the stack never allocates: it is used
/// from inside the allocator that it helps to instrument.
#[derive(Clone, Copy)]
pub struct GroupStack {
    slots: [AllocationGroupId; 512],
    current_val: usize,
}

/// `r` is the group that is active when `s` is the stack: its top, or the root
/// group when it is empty.
pub open spec fn is_current(s: Seq<AllocationGroupId>, r: AllocationGroupId) -> bool {
    if s.len() == 0 {
        r@ == ROOT_RAW
    } else {
        r == s.last()
    }
}

impl View for GroupStack {
    type V = Seq<AllocationGroupId>;

    /// The entered groups, outermost first.
    closed spec fn view(&self) -> Seq<AllocationGroupId> {
        self.slots@.subrange(0, self.current_val as int)
    }
}

impl GroupStack {
    /// The occupied count never exceeds the capacity.
    pub closed spec fn wf(&self) -> bool {
        self.current_val <= CAPACITY
    }

    /// Creates an empty stack.
    pub fn new() -> (r: Self)
        ensures
            r.wf(),
            r@ == Seq::<AllocationGroupId>::empty(),
    {
        let root = AllocationGroupId::root();
        let r = GroupStack { slots: [root; 512], current_val: 0 };
        assert(r@ =~= Seq::<AllocationGroupId>::empty());
        r
    }

    /// The group on top of the stack, or the root group if the stack is empty.
    pub fn current(&self) -> (r: AllocationGroupId)
        requires
            self.wf(),
        ensures
            is_current(self@, r),
    {
        if self.current_val == 0 {
            AllocationGroupId::root()
        } else {
            self.slots[self.current_val - 1]
        }
    }

    /// Number of groups currently entered.
    pub fn depth(&self) -> (r: usize)
        requires
            self.wf(),
        ensures
            r == self@.len(),
            r <= CAPACITY,
    {
        self.current_val
    }

    /// Enters `group`: it becomes the top of the stack. The stack must have
    /// room for it.
    pub fn push(&mut self, group: AllocationGroupId)
        requires
            old(self).wf(),
            old(self)@.len() < CAPACITY,
        ensures
            final(self).wf(),
            final(self)@ == old(self)@.push(group),
    {
        let i = self.current_val;
        self.slots[i] = group;
        self.current_val = i + 1;
        assert(self@ =~= old(self)@.push(group));
    }

    /// Leaves the innermost group and returns it. The stack must not be
    /// empty.
    pub fn pop(&mut self) -> (r: AllocationGroupId)
        requires
            old(self).wf(),
            old(self)@.len() > 0,
        ensures
            final(self).wf(),
            final(self)@ == old(self)@.drop_last(),
            r == old(self)@.last(),
    {
        self.current_val = self.current_val - 1;
        let r = self.slots[self.current_val];
        assert(self@ =~= old(self)@.drop_last());
        r
    }
}

} // verus!

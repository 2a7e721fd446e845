use vstd::prelude::*;
use crate::group::{AllocationGroupId, ROOT_RAW};
use crate::stack::{is_current, CAPACITY};

verus! {

/// One call made on a stack.
pub enum StackOp {
    Push(AllocationGroupId),
    Pop,
}

/// The entered groups after `ops` have been applied, in order, to an empty
/// stack, as `push` and `pop` describe them.
pub open spec fn stack_after(ops: Seq<StackOp>) -> Seq<AllocationGroupId>
    decreases ops.len(),
{
    if ops.len() == 0 {
        Seq::empty()
    } else {
        let prev = stack_after(ops.drop_last());
        match ops.last() {
            StackOp::Push(g) => prev.push(g),
            StackOp::Pop => prev.drop_last(),
        }
    }
}

/// Every call of `ops` meets the requirements of `push` and `pop`: no push on
/// a full stack, no pop on an empty one.
pub open spec fn disciplined(ops: Seq<StackOp>) -> bool
    decreases ops.len(),
{
    if ops.len() == 0 {
        true
    } else {
        let prev = stack_after(ops.drop_last());
        disciplined(ops.drop_last()) && match ops.last() {
            StackOp::Push(_) => prev.len() < CAPACITY,
            StackOp::Pop => prev.len() > 0,
        }
    }
}

/// Reading `ops` from the end, the most recent push that is not undone by a
/// later pop, once `pending` more pops have been taken into account.
pub open spec fn live_top(ops: Seq<StackOp>, pending: nat) -> Option<AllocationGroupId>
    decreases ops.len(),
{
    if ops.len() == 0 {
        None
    } else {
        match ops.last() {
            StackOp::Push(g) => if pending == 0 {
                Some(g)
            } else {
                live_top(ops.drop_last(), (pending - 1) as nat)
            },
            StackOp::Pop => live_top(ops.drop_last(), pending + 1),
        }
    }
}

proof fn lemma_live_top_indexes_stack(ops: Seq<StackOp>)
    requires
        disciplined(ops),
    ensures
        stack_after(ops).len() <= CAPACITY,
        forall|k: nat|
            #![trigger live_top(ops, k)]
            k < stack_after(ops).len() ==> live_top(ops, k) == Some(
                stack_after(ops)[stack_after(ops).len() - 1 - k],
            ),
        forall|k: nat| #![trigger live_top(ops, k)] k >= stack_after(ops).len() ==> live_top(ops, k) is None,
    decreases ops.len(),
{
    if ops.len() > 0 {
        let prev_ops = ops.drop_last();
        lemma_live_top_indexes_stack(prev_ops);
        let prev = stack_after(prev_ops);
        let cur = stack_after(ops);
        match ops.last() {
            StackOp::Push(g) => {
                assert forall|k: nat| #![trigger live_top(ops, k)] k > 0 implies live_top(ops, k)
                    == live_top(prev_ops, (k - 1) as nat) by {}
            },
            StackOp::Pop => {
                assert forall|k: nat| #![trigger live_top(ops, k)] true implies live_top(ops, k)
                    == live_top(prev_ops, k + 1) by {}
            },
        }
    }
}

/// After any sequence of calls that respects the stack discipline, the
/// current group is the most recently pushed group that has not been popped
/// since, or the root group when every push has been undone.
pub proof fn lemma_current_is_latest_live_push(ops: Seq<StackOp>, r: AllocationGroupId)
    requires
        disciplined(ops),
        is_current(stack_after(ops), r),
    ensures
        match live_top(ops, 0) {
            Some(g) => r == g,
            None => r@ == ROOT_RAW,
        },
{
    lemma_live_top_indexes_stack(ops);
}

/// Pushing a group and popping right after returns that group and gives back
/// the stack as it was.
pub proof fn lemma_push_pop_round_trip(s: Seq<AllocationGroupId>, g: AllocationGroupId)
    ensures
        s.push(g).last() == g,
        s.push(g).drop_last() == s,
{
    assert(s.push(g).drop_last() =~= s);
}

/// On a fresh stack the current group is the root group.
pub proof fn lemma_fresh_stack_current_is_root(r: AllocationGroupId)
    requires
        is_current(stack_after(Seq::empty()), r),
    ensures
        r@ == ROOT_RAW,
{
}

/// Pushes alone: up to 512 of them respect the discipline, and a 513th, or
/// any push beyond it, does not.
pub proof fn lemma_depth_limits(ops: Seq<StackOp>)
    requires
        forall|i: int| 0 <= i < ops.len() ==> ops[i] is Push,
    ensures
        stack_after(ops).len() == ops.len() as int,
        disciplined(ops) <==> ops.len() <= CAPACITY,
    decreases ops.len(),
{
    if ops.len() > 0 {
        lemma_depth_limits(ops.drop_last());
        if ops.len() > CAPACITY + 1 {
            assert(!disciplined(ops));
        }
    }
}

/// A pop on a stack where nothing has been pushed breaks the discipline.
pub proof fn lemma_pop_on_empty_refused()
    ensures
        !disciplined(seq![StackOp::Pop]),
{
    let one = seq![StackOp::Pop];
    assert(one.drop_last() =~= Seq::<StackOp>::empty());
}

/// A scope that pushes a group and pops it once on its way out, whichever way
/// it leaves, hands back the stack it found.
pub proof fn lemma_scope_restores_stack(ops: Seq<StackOp>, g: AllocationGroupId)
    requires
        disciplined(ops),
        stack_after(ops).len() < CAPACITY,
    ensures
        disciplined(ops.push(StackOp::Push(g)).push(StackOp::Pop)),
        stack_after(ops.push(StackOp::Push(g)).push(StackOp::Pop)) == stack_after(ops),
{
    let inner = ops.push(StackOp::Push(g));
    let outer = inner.push(StackOp::Pop);
    assert(inner.drop_last() =~= ops);
    assert(outer.drop_last() =~= inner);
    assert(stack_after(inner) == stack_after(ops).push(g));
    assert(disciplined(inner));
    assert(stack_after(outer) == stack_after(inner).drop_last());
    lemma_push_pop_round_trip(stack_after(ops), g);
}

} // verus!

//! Properties that relate the operations of [`BoundedStack`](crate::stack::BoundedStack),
//! stated over the model that their contracts use.

use vstd::prelude::*;

use crate::stack::{StackError, StackView};

verus! {

/// A freshly built stack holds nothing, whatever its capacity, and listing it
/// reports `StackEmpty`.
pub proof fn lemma_new_is_empty(capacity: nat)
    ensures
        StackView::empty(capacity).valid(),
        StackView::empty(capacity).head() == 0,
        StackView::empty(capacity).listing() == Err::<Seq<i32>, StackError>(StackError::StackEmpty),
{
}

/// Pushing a batch that fits succeeds, raises the head by the batch's length,
/// and leaves the batch's last value on top.
pub proof fn lemma_push_within_capacity(s: StackView, values: Seq<i32>)
    requires
        s.valid(),
        s.head() + values.len() <= s.capacity,
        values.len() > 0,
    ensures
        s.push_outcome(values) == Ok::<(), StackError>(()),
        s.after_push(values).valid(),
        s.after_push(values).head() == s.head() + values.len(),
        s.after_push(values).top_outcome() == Ok::<i32, StackError>(values.last()),
{
}

/// Two batches that fit, pushed one after the other, leave the stack as one
/// push of both would.
pub proof fn lemma_push_batches_in_sequence(s: StackView, first: Seq<i32>, second: Seq<i32>)
    requires
        s.valid(),
        s.head() + first.len() + second.len() <= s.capacity,
    ensures
        s.after_push(first).after_push(second) == s.after_push(first + second),
{
    assert(s.elements + first + second == s.elements + (first + second));
}

/// Pushing a batch that does not fit fills the stack with the first values
/// that fit, in order, drops the others, and reports `StackFull`.
pub proof fn lemma_push_beyond_capacity(s: StackView, values: Seq<i32>)
    requires
        s.valid(),
        s.head() + values.len() > s.capacity,
    ensures
        s.push_outcome(values) == Err::<(), StackError>(StackError::StackFull),
        s.after_push(values).valid(),
        s.after_push(values).head() == s.capacity,
        s.after_push(values).elements == s.elements + values.take(s.room() as int),
        s.after_push(values).elements.len() + values.skip(s.room() as int).len() == s.head()
            + values.len(),
{
}

/// On a stack with room, pushing `v` and popping right after returns `v` and
/// restores the stack, head included.
pub proof fn lemma_push_then_pop(s: StackView, v: i32)
    requires
        s.valid(),
        s.head() < s.capacity,
    ensures
        s.after_push(seq![v]).pop_outcome() == Ok::<i32, StackError>(v),
        s.after_push(seq![v]).after_pop() == s,
{
    assert((s.elements + seq![v]).drop_last() == s.elements);
}

/// Two listings of one state, with no change in between, are the same.
pub proof fn lemma_listing_repeats(
    s: StackView,
    first: Result<Seq<i32>, StackError>,
    second: Result<Seq<i32>, StackError>,
)
    requires
        first == s.listing(),
        second == s.listing(),
    ensures
        first == second,
{
}

/// Popping an empty stack reports `StackEmpty` and leaves it empty.
pub proof fn lemma_pop_empty(s: StackView)
    requires
        s.valid(),
        s.head() == 0,
    ensures
        s.pop_outcome() == Err::<i32, StackError>(StackError::StackEmpty),
        s.after_pop() == s,
        s.after_pop().head() == 0,
{
}

} // verus!

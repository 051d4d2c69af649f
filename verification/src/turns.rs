//! Runs of turns, by which the drains are described.
use crate::events::Received;
use vstd::prelude::*;

verus! {

/// One turn of a drain without a watchdog: the stop flag it reads, and what the wait brings if it
/// waits.
pub struct Turn<E> {
    pub stop_flag: bool,
    pub received: Received<E>,
}

/// The turns of a drain, from the first to the one in which it leaves.
pub open spec fn is_row<T>(turns: Seq<T>, leaves: spec_fn(T) -> bool) -> bool {
    &&& forall|i: int| 0 <= i < turns.len() - 1 ==> !leaves(#[trigger] turns[i])
    &&& turns.len() == u64::MAX || turns.len() > 0 && leaves(turns.last())
}

/// A row of turns ends in the first turn in which the drain leaves: it leaves in none before, and,
/// unless there were as many turns as can be counted, it leaves in the last.
pub proof fn law_row_ends_where_it_leaves<T>(turns: Seq<T>, leaves: spec_fn(T) -> bool, i: int)
    requires
        is_row(turns, leaves),
        0 <= i < turns.len(),
    ensures
        turns.len() < u64::MAX ==> (leaves(turns[i]) <==> i == turns.len() - 1),
        i < turns.len() - 1 ==> !leaves(turns[i]),
{
}

} // verus!

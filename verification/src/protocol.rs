//! The write-once protocol, stated abstractly.
//!
//! Every container in this crate has an `Option<T>` as its abstract state:
//! `None` while empty, `Some(v)` once filled with `v`. This module pins the
//! protocol those states follow down as a two-state machine with a single
//! legal transition, and proves its laws: the state space has exactly two
//! observable shapes, the initializing write fires at most once, and a
//! filled state is final, so every later observation sees the written
//! value.

use vstd::prelude::*;

verus! {

/// The initializing write as a transition on abstract states: it is
/// enabled only on the empty state and leaves the state filled with
/// exactly the written value. `FreezeBox::lazy_init` and
/// `MaybeBox::lazy_init` each perform exactly this step on their views.
pub open spec fn write_step<T>(pre: Option<T>, post: Option<T>, val: T) -> bool {
    &&& pre is None
    &&& post == Some(val)
}

/// Any step a live container ever takes on its abstract state: reads and
/// queries leave the state unchanged, and the only change is the
/// initializing write from the empty state.
pub open spec fn step<T>(pre: Option<T>, post: Option<T>) -> bool {
    ||| post == pre
    ||| (pre is None && post is Some)
}

/// A container has exactly two observable states: it is empty or filled,
/// never both, and a filled state carries exactly one value.
pub proof fn lemma_two_observable_states<T>(s: Option<T>)
    ensures
        (s is None) <==> !(s is Some),
        s is Some ==> s == Some(s->0),
{
}

/// Exactly-once write: once a write step has fired, no further write step
/// is enabled, whatever value it would try to store. Of any number of
/// attempted writes to one container, at most one can succeed.
pub proof fn lemma_write_at_most_once<T>(pre: Option<T>, mid: Option<T>, post: Option<T>, v1: T, v2: T)
    requires
        write_step(pre, mid, v1),
    ensures
        !write_step(mid, post, v2),
{
}

/// Read-after-write visibility: a successful write leaves the state filled
/// with the written value, and every later step preserves it, so every
/// subsequent observation of the state sees that value and never the empty
/// state again.
pub proof fn lemma_read_after_write<T>(pre: Option<T>, post: Option<T>, later: Option<T>, val: T)
    requires
        write_step(pre, post, val),
        step(post, later),
    ensures
        post == Some(val),
        later == Some(val),
{
}

} // verus!

//! Completion primitives.
//!
//! An asynchronous operation is driven by a primitive registered on one
//! interrupt line: on every firing of that line the primitive is polled, it
//! inspects the status flags that define completion for its operation, and
//! it either yields — leaving the interrupt armed — or completes with a
//! result and deregisters itself from the line's chain.
//!
//! Two views of that lifecycle are stated and proved here. [`fire`] is one
//! firing seen from the interrupt line: every primitive of the chain is
//! polled in registration order, the completed ones are notified in that
//! same order and leave the chain, the rest stay, in order. The spec
//! functions at the bottom follow one primitive across a sequence of
//! firings, each summarized by whether its completion condition was
//! observed; the closing lemma states that the primitive notifies exactly
//! once, and never before the condition is observed.

use vstd::prelude::*;
use vstd::seq_lib::*;

verus! {

/// What one poll of a completion primitive returns: either "not yet", with
/// the interrupt left armed, or "done" with the operation's result.
pub enum FiberOutput<T> {
    Yielded,
    Complete(T),
}

impl<T> FiberOutput<T> {
    /// Whether this poll completed the operation.
    pub fn is_complete(&self) -> (r: bool)
        ensures
            r == (self is Complete),
    {
        match self {
            FiberOutput::Complete(_) => true,
            FiberOutput::Yielded => false,
        }
    }
}

/// One primitive registered on an interrupt line's chain: an awaiting
/// operation, identified to its waiter by `id`, that completes when the
/// status flag at index `flag` of the line's observed flags is set. A
/// primitive never has the line to itself: fault handlers and other
/// operations may stand on the same chain.
#[derive(Clone, Copy, PartialEq, Eq, Structural)]
pub struct Waiter {
    /// The identity of the operation awaiting completion.
    pub id: u32,
    /// The index of the status flag whose observation completes it.
    pub flag: usize,
}

/// The selector a firing applies to each registered primitive: the
/// identity of those whose flag is observed set.
pub open spec fn spec_completes(observed: Seq<bool>) -> spec_fn(Waiter) -> Option<u32> {
    |w: Waiter| if observed[w.flag as int] {
        Some(w.id)
    } else {
        None
    }
}

/// The selector for the primitives a firing leaves registered: those whose
/// flag is not observed.
pub open spec fn spec_retains(observed: Seq<bool>) -> spec_fn(Waiter) -> Option<Waiter> {
    |w: Waiter| if observed[w.flag as int] {
        None
    } else {
        Some(w)
    }
}

/// The notifications one firing delivers: the ids of the completed
/// primitives, in registration order.
pub open spec fn spec_completed(chain: Seq<Waiter>, observed: Seq<bool>) -> Seq<u32> {
    chain.filter_map(spec_completes(observed))
}

/// The chain a firing leaves behind: the still-pending primitives, in
/// their registration order.
pub open spec fn spec_retained(chain: Seq<Waiter>, observed: Seq<bool>) -> Seq<Waiter> {
    chain.filter_map(spec_retains(observed))
}

/// Fire an interrupt line once: poll every primitive of its chain, in
/// registration order, against the observed status flags. A primitive
/// whose flag is set completes — its id is notified, in that same order —
/// and deregisters itself; every other primitive stays registered, in
/// order, with the interrupt left armed.
pub fn fire(chain: Vec<Waiter>, observed: &Vec<bool>) -> (r: (Vec<u32>, Vec<Waiter>))
    requires
        forall|i: int| 0 <= i < chain@.len() ==> (#[trigger] chain@[i]).flag < observed@.len(),
    ensures
        r.0@ == spec_completed(chain@, observed@),
        r.1@ == spec_retained(chain@, observed@),
{
    let mut done: Vec<u32> = Vec::new();
    let mut rest: Vec<Waiter> = Vec::new();
    let n = chain.len();
    let mut i: usize = 0;
    while i < n
        invariant
            i <= n,
            n == chain@.len(),
            forall|k: int| 0 <= k < chain@.len() ==> (#[trigger] chain@[k]).flag < observed@.len(),
            done@ == spec_completed(chain@.take(i as int), observed@),
            rest@ == spec_retained(chain@.take(i as int), observed@),
        decreases n - i,
    {
        proof {
            chain@.lemma_filter_map_take_succ(spec_completes(observed@), i as int);
            chain@.lemma_filter_map_take_succ(spec_retains(observed@), i as int);
        }
        let w = chain[i];
        if observed[w.flag] {
            done.push(w.id);
        } else {
            rest.push(w);
        }
        i = i + 1;
    }
    proof {
        assert(chain@.take(n as int) =~= chain@);
    }
    (done, rest)
}

/// The firing index at which the completion condition is first observed, or
/// the length of the sequence if it never is.
pub open spec fn spec_first_observed(events: Seq<bool>) -> int
    decreases events.len(),
{
    if events.len() == 0 {
        0
    } else if events[0] {
        0
    } else {
        1 + spec_first_observed(events.subrange(1, events.len() as int))
    }
}

/// How many completion notifications a primitive delivers over a sequence
/// of firings when it is pending at the first of them: it is polled at each
/// firing, completes at the first firing that observes the condition, and is
/// deregistered — so no longer polled — from then on.
pub open spec fn spec_notifications(events: Seq<bool>) -> nat
    decreases events.len(),
{
    if events.len() == 0 {
        0
    } else if events[0] {
        1
    } else {
        spec_notifications(events.subrange(1, events.len() as int))
    }
}

/// A completion notification fires exactly once, and only once the observed
/// flags call for it: over any sequence of firings, the primitive notifies
/// at most once; it notifies exactly once precisely when some firing
/// observes the completion condition; and every firing before the first
/// observation leaves it pending.
pub proof fn lemma_completion_exactly_once(events: Seq<bool>)
    ensures
        spec_notifications(events) <= 1,
        0 <= spec_first_observed(events) <= events.len(),
        spec_notifications(events) == 1 <==> spec_first_observed(events) < events.len(),
        spec_first_observed(events) < events.len() ==> events[spec_first_observed(events)],
        forall|j: int| 0 <= j < spec_first_observed(events) ==> !events[j],
    decreases events.len(),
{
    if events.len() == 0 {
    } else if events[0] {
    } else {
        let tail = events.subrange(1, events.len() as int);
        lemma_completion_exactly_once(tail);
        assert(forall|j: int| 0 <= j < tail.len() ==> tail[j] == events[j + 1]);
        assert forall|j: int| 0 <= j < spec_first_observed(events) implies !events[j] by {
            if j > 0 {
                assert(!tail[j - 1]);
            }
        }
    }
}

} // verus!

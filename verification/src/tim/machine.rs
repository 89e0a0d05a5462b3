//! Value-level model of the timer configuration discipline.
//!
//! The timer configuration in [`crate::tim::gen`] fixes the count direction
//! once, and promotes the link role from the default to master at most
//! once, from a configuration whose direction is already fixed. This module
//! mirrors that machine over plain values and proves its acyclicity: every
//! transition strictly raises a rank, so no sequence of transitions ever
//! revisits a state — in particular, the fresh undetermined-direction,
//! default-link state is unreachable once any choice has been made.

use vstd::prelude::*;

verus! {

/// The count-direction attribute of a timer configuration.
#[derive(Clone, Copy, PartialEq, Eq, Structural)]
pub enum DirCfg {
    Undetermined,
    Up,
    Down,
}

/// The link-role attribute of a timer configuration.
#[derive(Clone, Copy, PartialEq, Eq, Structural)]
pub enum LinkCfg {
    Default,
    Master,
}

/// One timer configuration state.
#[derive(Clone, Copy, PartialEq, Eq, Structural)]
pub struct TimConfig {
    pub dir: DirCfg,
    pub link: LinkCfg,
}

/// The state a freshly initialized timer starts from.
pub open spec fn spec_tim_initial() -> TimConfig {
    TimConfig { dir: DirCfg::Undetermined, link: LinkCfg::Default }
}

/// The rank of a state: how many one-way choices have been made.
pub open spec fn spec_tim_rank(c: TimConfig) -> int {
    (if c.dir is Undetermined {
        0int
    } else {
        1int
    }) + (if c.link is Master {
        1int
    } else {
        0int
    })
}

/// The transition relation: a direction can be chosen only while it is
/// still open; the master role only from the default link of a
/// configuration whose direction is already fixed.
pub open spec fn spec_tim_step(pre: TimConfig, post: TimConfig) -> bool {
    ||| (pre.dir is Undetermined && post == (TimConfig { dir: DirCfg::Up, ..pre }))
    ||| (pre.dir is Undetermined && post == (TimConfig { dir: DirCfg::Down, ..pre }))
    ||| (!(pre.dir is Undetermined) && pre.link is Default && post == (TimConfig {
        link: LinkCfg::Master,
        ..pre
    }))
}

/// Every transition raises the rank by exactly one and never reopens the
/// direction.
pub proof fn lemma_tim_step_progress(pre: TimConfig, post: TimConfig)
    requires
        spec_tim_step(pre, post),
    ensures
        spec_tim_rank(post) == spec_tim_rank(pre) + 1,
        !(pre.dir is Undetermined) ==> post.dir == pre.dir,
{
}

/// Typestate acyclicity for the timer: along any sequence of configuration
/// transitions no state is visited twice, and once any choice has been
/// made, nothing equivalent to the initial state is reachable again.
pub proof fn lemma_tim_no_return(tr: Seq<TimConfig>)
    requires
        forall|i: int| 0 <= i < tr.len() - 1 ==> #[trigger] spec_tim_step(tr[i], tr[i + 1]),
    ensures
        forall|i: int, j: int|
            0 <= i < j < tr.len() ==> spec_tim_rank(tr[i]) < spec_tim_rank(tr[j]),
        forall|i: int, j: int| 0 <= i < j < tr.len() ==> tr[i] != tr[j],
        forall|j: int| 1 <= j < tr.len() ==> tr[j] != spec_tim_initial(),
{
    assert forall|i: int, j: int|
        0 <= i < j < tr.len() implies spec_tim_rank(tr[i]) < spec_tim_rank(tr[j]) by {
        lemma_tim_growth(tr, i, j);
    }
    assert forall|j: int| 1 <= j < tr.len() implies tr[j] != spec_tim_initial() by {
        let k = j - 1;
        assert(spec_tim_step(tr[k], tr[k + 1]));
        lemma_tim_step_progress(tr[j - 1], tr[j]);
        assert(spec_tim_rank(tr[j]) >= 1);
    }
}

/// Helper: the rank grows strictly with the index.
proof fn lemma_tim_growth(tr: Seq<TimConfig>, i: int, j: int)
    requires
        forall|k: int| 0 <= k < tr.len() - 1 ==> #[trigger] spec_tim_step(tr[k], tr[k + 1]),
        0 <= i < j < tr.len(),
    ensures
        spec_tim_rank(tr[i]) < spec_tim_rank(tr[j]),
    decreases j - i,
{
    let k = j - 1;
    assert(spec_tim_step(tr[k], tr[k + 1]));
    lemma_tim_step_progress(tr[j - 1], tr[j]);
    if i < j - 1 {
        lemma_tim_growth(tr, i, j - 1);
    }
}

} // verus!

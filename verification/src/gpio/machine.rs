//! Value-level model of the typestate configuration discipline.
//!
//! The pin configuration in [`crate::gpio::pin`] encodes its state in the
//! type; this module mirrors that machine over plain values, states its
//! transition relation, and proves what the discipline is for: along any
//! sequence of transitions the set of determined attributes only grows, one
//! attribute per step, so no sequence ever revisits an earlier state — in
//! particular, once any attribute has been set, the undetermined initial
//! state is unreachable.

use vstd::prelude::*;

verus! {

/// The mode attribute of a configuration.
#[derive(Clone, Copy, PartialEq, Eq, Structural)]
pub enum ModeCfg {
    Undetermined,
    Input,
    Output,
    Alternate,
}

/// The electrical-type attribute of a configuration.
#[derive(Clone, Copy, PartialEq, Eq, Structural)]
pub enum TypeCfg {
    Undetermined,
    PushPull,
    OpenDrain,
}

/// The pull attribute of a configuration.
#[derive(Clone, Copy, PartialEq, Eq, Structural)]
pub enum PullCfg {
    Undetermined,
    Floating,
    Up,
    Down,
}

/// One pin configuration state: the three attributes, each either
/// determined or not.
#[derive(Clone, Copy, PartialEq, Eq, Structural)]
pub struct PinConfig {
    pub mode: ModeCfg,
    pub typ: TypeCfg,
    pub pull: PullCfg,
}

/// The state every configuration starts from: nothing determined.
pub open spec fn spec_initial() -> PinConfig {
    PinConfig { mode: ModeCfg::Undetermined, typ: TypeCfg::Undetermined, pull: PullCfg::Undetermined }
}

/// How many attributes a state has determined.
pub open spec fn spec_determined(c: PinConfig) -> int {
    (if c.mode is Undetermined {
        0int
    } else {
        1int
    }) + (if c.typ is Undetermined {
        0int
    } else {
        1int
    }) + (if c.pull is Undetermined {
        0int
    } else {
        1int
    })
}

/// The transition relation of the configuration machine, one disjunct per
/// configuration method: a mode can be chosen only from the initial state;
/// an electrical type only once the mode is fixed; a pull only on a
/// push/pull pin whose pull is still open. Speed selection and line access
/// change no attribute and are no transitions of this machine.
pub open spec fn spec_step(pre: PinConfig, post: PinConfig) -> bool {
    ||| (pre == spec_initial() && post == (PinConfig { mode: ModeCfg::Input, ..pre }))
    ||| (pre == spec_initial() && post == (PinConfig { mode: ModeCfg::Output, ..pre }))
    ||| (pre == spec_initial() && post == (PinConfig { mode: ModeCfg::Alternate, ..pre }))
    ||| (!(pre.mode is Undetermined) && pre.typ is Undetermined && pre.pull is Undetermined
        && post == (PinConfig { typ: TypeCfg::PushPull, ..pre }))
    ||| (!(pre.mode is Undetermined) && pre.typ is Undetermined && pre.pull is Undetermined
        && post == (PinConfig { typ: TypeCfg::OpenDrain, ..pre }))
    ||| (!(pre.mode is Undetermined) && pre.typ is PushPull && pre.pull is Undetermined && post
        == (PinConfig { pull: PullCfg::Floating, ..pre }))
    ||| (!(pre.mode is Undetermined) && pre.typ is PushPull && pre.pull is Undetermined && post
        == (PinConfig { pull: PullCfg::Up, ..pre }))
    ||| (!(pre.mode is Undetermined) && pre.typ is PushPull && pre.pull is Undetermined && post
        == (PinConfig { pull: PullCfg::Down, ..pre }))
}

/// Configuration only moves forward: every transition determines exactly
/// one attribute that was open and keeps every attribute that was already
/// determined.
pub proof fn lemma_step_progress(pre: PinConfig, post: PinConfig)
    requires
        spec_step(pre, post),
    ensures
        spec_determined(post) == spec_determined(pre) + 1,
        !(pre.mode is Undetermined) ==> post.mode == pre.mode,
        !(pre.typ is Undetermined) ==> post.typ == pre.typ,
        !(pre.pull is Undetermined) ==> post.pull == pre.pull,
{
}

/// Typestate acyclicity: along any sequence of configuration transitions,
/// no state — the initial one included — is ever visited twice; once any
/// attribute has been set, nothing equivalent to the undetermined initial
/// state can be reached again.
pub proof fn lemma_no_return(tr: Seq<PinConfig>)
    requires
        forall|i: int| 0 <= i < tr.len() - 1 ==> #[trigger] spec_step(tr[i], tr[i + 1]),
    ensures
        forall|i: int, j: int|
            0 <= i < j < tr.len() ==> spec_determined(tr[i]) < spec_determined(tr[j]),
        forall|i: int, j: int| 0 <= i < j < tr.len() ==> tr[i] != tr[j],
        forall|j: int| 1 <= j < tr.len() ==> tr[j] != spec_initial(),
{
    assert forall|i: int, j: int|
        0 <= i < j < tr.len() implies spec_determined(tr[i]) < spec_determined(tr[j]) by {
        lemma_growth(tr, i, j);
    }
    assert forall|j: int| 1 <= j < tr.len() implies tr[j] != spec_initial() by {
        let k = j - 1;
        assert(spec_step(tr[k], tr[k + 1]));
        lemma_step_progress(tr[j - 1], tr[j]);
        assert(spec_determined(tr[j]) >= 1);
    }
}

/// Helper: the number of determined attributes grows strictly with the
/// index.
proof fn lemma_growth(tr: Seq<PinConfig>, i: int, j: int)
    requires
        forall|k: int| 0 <= k < tr.len() - 1 ==> #[trigger] spec_step(tr[k], tr[k + 1]),
        0 <= i < j < tr.len(),
    ensures
        spec_determined(tr[i]) < spec_determined(tr[j]),
    decreases j - i,
{
    let k = j - 1;
    assert(spec_step(tr[k], tr[k + 1]));
    lemma_step_progress(tr[j - 1], tr[j]);
    if i < j - 1 {
        lemma_growth(tr, i, j - 1);
    }
}

} // verus!

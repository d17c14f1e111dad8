//! Whether a launcher item or window is open, and whether it has focus.
use vstd::prelude::*;

use super::ToplevelInfo;

verus! {

/// Open state for a launcher item, or item window.
#[derive(Debug, Clone, Copy, PartialEq, Eq, Structural)]
pub enum OpenState {
    Closed,
    Open { focused: bool },
}

/// The state is open.
pub open spec fn spec_is_open(s: OpenState) -> bool {
    s != OpenState::Closed
}

/// The state is open with focus.
pub open spec fn spec_is_focused(s: OpenState) -> bool {
    s == OpenState::Open { focused: true }
}

/// Two states merged: open when either is, focused when either is.
pub open spec fn merge2(a: OpenState, b: OpenState) -> OpenState {
    if spec_is_open(a) || spec_is_open(b) {
        OpenState::Open { focused: spec_is_focused(a) || spec_is_focused(b) }
    } else {
        OpenState::Closed
    }
}

/// A list of states merged from the left, starting from `Closed`.
pub open spec fn merged(states: Seq<OpenState>) -> OpenState
    decreases states.len(),
{
    if states.len() == 0 {
        OpenState::Closed
    } else {
        merge2(merged(states.drop_last()), states.last())
    }
}

impl OpenState {
    /// The state of a newly seen toplevel window: open, focused as it is.
    pub fn from_toplevel(toplevel: &ToplevelInfo) -> (r: OpenState)
        ensures
            r == (OpenState::Open { focused: toplevel.focused }),
    {
        OpenState::Open { focused: toplevel.focused }
    }

    /// Creates open with focused.
    pub fn focused(focused: bool) -> (r: OpenState)
        ensures
            r == (OpenState::Open { focused }),
    {
        OpenState::Open { focused }
    }

    /// Checks if open.
    pub fn is_open(self) -> (r: bool)
        ensures
            r == spec_is_open(self),
    {
        match self {
            OpenState::Closed => false,
            OpenState::Open { .. } => true,
        }
    }

    /// Checks if open with focus.
    pub fn is_focused(self) -> (r: bool)
        ensures
            r == spec_is_focused(self),
    {
        match self {
            OpenState::Open { focused: true } => true,
            _ => false,
        }
    }

    /// Merges states together to produce a single state.
    /// This is effectively an OR operation,
    /// so sets state to open and flags to true if any state is open
    /// or any instance of the flag is true.
    pub fn merge_states(states: &[&OpenState]) -> (r: OpenState)
        ensures
            r == merged(states@.map_values(|s: &OpenState| *s)),
            spec_is_open(r) <==> exists|i: int| 0 <= i < states@.len() && spec_is_open(*#[trigger] states@[i]),
            spec_is_focused(r) <==> exists|i: int| 0 <= i < states@.len() && spec_is_focused(*#[trigger] states@[i]),
    {
        let ghost sv = states@.map_values(|s: &OpenState| *s);
        let mut merged_state = OpenState::Closed;
        let mut i: usize = 0;
        while i < states.len()
            invariant
                i <= states@.len(),
                sv == states@.map_values(|s: &OpenState| *s),
                merged_state == merged(sv.take(i as int)),
                spec_is_open(merged_state) <==> exists|k: int| 0 <= k < i && spec_is_open(*#[trigger] states@[k]),
                spec_is_focused(merged_state) <==> exists|k: int| 0 <= k < i && spec_is_focused(*#[trigger] states@[k]),
            decreases states.len() - i,
        {
            let current = *states[i];
            proof {
                assert(sv.take(i + 1).drop_last() =~= sv.take(i as int));
                assert(sv.take(i + 1).last() == current);
            }
            merged_state = if merged_state.is_open() || current.is_open() {
                OpenState::Open { focused: merged_state.is_focused() || current.is_focused() }
            } else {
                OpenState::Closed
            };
            i = i + 1;
        }
        assert(sv.take(states.len() as int) =~= sv);
        merged_state
    }
}

/// Merging is open exactly when some state is open, and focused exactly
/// when some state is focused.
pub proof fn lemma_merged_is_or(states: Seq<OpenState>)
    ensures
        spec_is_open(merged(states)) <==> exists|i: int| 0 <= i < states.len() && spec_is_open(#[trigger] states[i]),
        spec_is_focused(merged(states)) <==> exists|i: int| 0 <= i < states.len() && spec_is_focused(#[trigger] states[i]),
    decreases states.len(),
{
    if states.len() > 0 {
        let init = states.drop_last();
        lemma_merged_is_or(init);
        assert forall|i: int| 0 <= i < init.len() implies #[trigger] init[i] == states[i] by {}
        if exists|i: int| 0 <= i < states.len() && spec_is_open(#[trigger] states[i]) {
            let i = choose|i: int| 0 <= i < states.len() && spec_is_open(#[trigger] states[i]);
            if i < init.len() {
                assert(spec_is_open(init[i]));
            }
        }
        if exists|i: int| 0 <= i < states.len() && spec_is_focused(#[trigger] states[i]) {
            let i = choose|i: int| 0 <= i < states.len() && spec_is_focused(#[trigger] states[i]);
            if i < init.len() {
                assert(spec_is_focused(init[i]));
            }
        }
    }
}

/// Merging lists one after another is merging the whole list: the order
/// and grouping of the states do not matter to the result.
pub proof fn lemma_merged_append(a: Seq<OpenState>, b: Seq<OpenState>)
    ensures
        merged(a + b) == merge2(merged(a), merged(b)),
{
    lemma_merged_is_or(a);
    lemma_merged_is_or(b);
    lemma_merged_is_or(a + b);
    if exists|i: int| 0 <= i < a.len() && spec_is_open(#[trigger] a[i]) {
        let i = choose|i: int| 0 <= i < a.len() && spec_is_open(#[trigger] a[i]);
        assert((a + b)[i] == a[i]);
    }
    if exists|i: int| 0 <= i < b.len() && spec_is_open(#[trigger] b[i]) {
        let i = choose|i: int| 0 <= i < b.len() && spec_is_open(#[trigger] b[i]);
        assert((a + b)[a.len() + i] == b[i]);
    }
    if exists|i: int| 0 <= i < a.len() && spec_is_focused(#[trigger] a[i]) {
        let i = choose|i: int| 0 <= i < a.len() && spec_is_focused(#[trigger] a[i]);
        assert((a + b)[i] == a[i]);
    }
    if exists|i: int| 0 <= i < b.len() && spec_is_focused(#[trigger] b[i]) {
        let i = choose|i: int| 0 <= i < b.len() && spec_is_focused(#[trigger] b[i]);
        assert((a + b)[a.len() + i] == b[i]);
    }
    if exists|i: int| 0 <= i < (a + b).len() && spec_is_open(#[trigger] (a + b)[i]) {
        let i = choose|i: int| 0 <= i < (a + b).len() && spec_is_open(#[trigger] (a + b)[i]);
        if i < a.len() {
            assert(spec_is_open(a[i]));
        } else {
            assert(spec_is_open(b[i - a.len()]));
        }
    }
    if exists|i: int| 0 <= i < (a + b).len() && spec_is_focused(#[trigger] (a + b)[i]) {
        let i = choose|i: int| 0 <= i < (a + b).len() && spec_is_focused(#[trigger] (a + b)[i]);
        if i < a.len() {
            assert(spec_is_focused(a[i]));
        } else {
            assert(spec_is_focused(b[i - a.len()]));
        }
    }
}

} // verus!

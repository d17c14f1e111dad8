//! The focused-window module: which window is focused, followed through
//! the window manager's events, and what the bar shows for it.
use vstd::prelude::*;

use crate::launcher::ToplevelInfo;
use crate::launcher::controller::ToplevelEvent;

verus! {

/// What the bar is told: the focused window's title and application id,
/// or that nothing is focused.
pub enum FocusUpdate {
    Focused { title: String, app_id: String },
    Cleared,
}

/// The id of the window last reported focused, if any.
#[derive(Debug, Clone, Copy, PartialEq, Eq, Structural)]
pub struct FocusTracker {
    pub current: Option<usize>,
}

/// The first focused window among `infos`, if any.
pub open spec fn first_focused(infos: Seq<ToplevelInfo>) -> Option<int>
    decreases infos.len(),
{
    if infos.len() == 0 {
        None
    } else {
        match first_focused(infos.drop_last()) {
            Some(i) => Some(i),
            None => if infos.last().focused { Some(infos.len() - 1) } else { None },
        }
    }
}

/// The update naming window `info` as focused.
pub open spec fn focused_update(u: FocusUpdate, info: ToplevelInfo) -> bool {
    u matches FocusUpdate::Focused { title, app_id } && title@ == info.title@ && app_id@ == info.app_id@
}

impl FocusTracker {
    /// Starts from the windows that exist: the first focused one becomes
    /// current and is reported; with none focused nothing is reported.
    pub fn initial(infos: &Vec<ToplevelInfo>) -> (r: (FocusTracker, Option<FocusUpdate>))
        ensures
            match first_focused(infos@) {
                Some(i) => r.0.current == Some(infos@[i].id) && (r.1 matches Some(u) && focused_update(u, infos@[i])),
                None => r.0.current is None && r.1 is None,
            },
    {
        let mut i: usize = 0;
        while i < infos.len()
            invariant
                i <= infos.len(),
                first_focused(infos@.take(i as int)) is None,
            decreases infos.len() - i,
        {
            assert(infos@.take(i + 1).drop_last() =~= infos@.take(i as int));
            if infos[i].focused {
                proof {
                    lemma_first_focused_prefix(infos@, i as int + 1);
                }
                let info = &infos[i];
                return (
                    FocusTracker { current: Some(info.id) },
                    Some(FocusUpdate::Focused { title: info.title.clone(), app_id: info.app_id.clone() }),
                );
            }
            i = i + 1;
        }
        assert(infos@.take(infos.len() as int) =~= infos@);
        (FocusTracker { current: None }, None)
    }

    /// What an event changes: a focused window becomes current and is
    /// reported; the current window losing focus (an unset current counts
    /// as id 0), or a focused window closing, clears the focus; other
    /// events change nothing.
    pub fn on_event(&mut self, event: &ToplevelEvent) -> (r: Option<FocusUpdate>)
        ensures
            match *event {
                ToplevelEvent::Update(info) => if info.focused {
                    final(self).current == Some(info.id) && (r matches Some(u) && focused_update(u, info))
                } else if info.id == match old(self).current {
                    Some(c) => c,
                    None => 0,
                } {
                    final(self).current is None && r matches Some(FocusUpdate::Cleared)
                } else {
                    *final(self) == *old(self) && r is None
                },
                ToplevelEvent::Remove(info) => if info.focused {
                    final(self).current is None && r matches Some(FocusUpdate::Cleared)
                } else {
                    *final(self) == *old(self) && r is None
                },
                ToplevelEvent::New(_) => *final(self) == *old(self) && r is None,
            },
    {
        match event {
            ToplevelEvent::Update(info) => {
                let current = match self.current {
                    Some(c) => c,
                    None => 0,
                };
                if info.focused {
                    self.current = Some(info.id);
                    Some(FocusUpdate::Focused { title: info.title.clone(), app_id: info.app_id.clone() })
                } else if info.id == current {
                    self.current = None;
                    Some(FocusUpdate::Cleared)
                } else {
                    None
                }
            },
            ToplevelEvent::Remove(info) => {
                if info.focused {
                    self.current = None;
                    Some(FocusUpdate::Cleared)
                } else {
                    None
                }
            },
            ToplevelEvent::New(_) => None,
        }
    }
}

/// A focused window in a prefix is the first focused window overall when
/// the prefix before it had none.
proof fn lemma_first_focused_prefix(infos: Seq<ToplevelInfo>, n: int)
    requires
        0 < n <= infos.len(),
        first_focused(infos.take(n - 1)) is None,
        infos[n - 1].focused,
    ensures
        first_focused(infos) == Some(n - 1),
    decreases infos.len(),
{
    if infos.len() == n {
        assert(infos.drop_last() =~= infos.take(n - 1));
    } else {
        assert(infos.drop_last().take(n - 1) =~= infos.take(n - 1));
        lemma_first_focused_prefix(infos.drop_last(), n);
    }
}

/// What the widget shows for an update: the icon (when icons are shown)
/// and the title (when titles are shown) for a focused window; both
/// hidden when focus is cleared.
#[derive(Debug, Clone, Copy, PartialEq, Eq, Structural)]
pub struct FocusedView {
    pub load_icon: bool,
    pub show_title: bool,
    pub hide_all: bool,
}

/// What the widget does for an update.
pub fn focused_view(update: &Option<FocusUpdate>, show_icon: bool, show_title: bool) -> (r: FocusedView)
    ensures
        match *update {
            Some(FocusUpdate::Focused { .. }) => r == (FocusedView { load_icon: show_icon, show_title, hide_all: false }),
            _ => r == (FocusedView { load_icon: false, show_title: false, hide_all: true }),
        },
{
    match update {
        Some(FocusUpdate::Focused { .. }) => FocusedView { load_icon: show_icon, show_title, hide_all: false },
        _ => FocusedView { load_icon: false, show_title: false, hide_all: true },
    }
}

} // verus!

//! The notification centre's button: the icon for the panel's state and
//! the count badge.
use vstd::prelude::*;

use crate::decimal::{dec, u64_to_chars};
use crate::text::{owned, string_of};

verus! {

/// The notification daemon's state.
#[derive(Debug, Clone, Copy, PartialEq, Eq, Structural)]
pub struct NotificationState {
    /// Number of notifications.
    pub count: u32,
    /// Do-not-disturb is on.
    pub dnd: bool,
    /// The control centre is open.
    pub cc_open: bool,
}

/// Icons for each combination of panel state, notifications and
/// do-not-disturb.
#[derive(Debug, Clone)]
pub struct Icons {
    pub closed_none: String,
    pub closed_some: String,
    pub closed_dnd: String,
    pub open_none: String,
    pub open_some: String,
    pub open_dnd: String,
}

/// The default icons.
pub open spec fn is_default_icons(i: Icons) -> bool {
    &&& i.closed_none@ == "\u{f0365}"@
    &&& i.closed_some@ == "\u{f1942}"@
    &&& i.closed_dnd@ == "\u{f116f}"@
    &&& i.open_none@ == "\u{f0361}"@
    &&& i.open_some@ == "\u{f1941}"@
    &&& i.open_dnd@ == "\u{f116e}"@
}

/// The icon for a state: do-not-disturb takes priority over the count,
/// within the open or closed set.
pub open spec fn spec_icon(i: Icons, ev: NotificationState) -> Seq<char> {
    if ev.cc_open {
        if ev.dnd {
            i.open_dnd@
        } else if ev.count > 0 {
            i.open_some@
        } else {
            i.open_none@
        }
    } else {
        if ev.dnd {
            i.closed_dnd@
        } else if ev.count > 0 {
            i.closed_some@
        } else {
            i.closed_none@
        }
    }
}

impl Icons {
    /// The default icons.
    pub fn default() -> (r: Icons)
        ensures
            is_default_icons(r),
    {
        Icons {
            closed_none: owned("\u{f0365}"),
            closed_some: owned("\u{f1942}"),
            closed_dnd: owned("\u{f116f}"),
            open_none: owned("\u{f0361}"),
            open_some: owned("\u{f1941}"),
            open_dnd: owned("\u{f116e}"),
        }
    }

    /// The icon for the daemon's state.
    pub fn icon(&self, value: NotificationState) -> (r: &str)
        ensures
            r@ == spec_icon(*self, value),
    {
        let s = match (value.cc_open, value.count > 0, value.dnd) {
            (true, _, true) => &self.open_dnd,
            (true, true, false) => &self.open_some,
            (true, false, false) => &self.open_none,
            (false, _, true) => &self.closed_dnd,
            (false, true, false) => &self.closed_some,
            (false, false, false) => &self.closed_none,
        };
        s.as_str()
    }
}

/// The count badge: its text, and whether it shows (counting is on and
/// there are notifications).
pub fn count_badge(show_count: bool, value: NotificationState) -> (r: (String, bool))
    ensures
        r.0@ == dec(value.count as nat),
        r.1 == (show_count && value.count > 0),
{
    (string_of(&u64_to_chars(value.count as u64)), show_count && value.count > 0)
}

} // verus!

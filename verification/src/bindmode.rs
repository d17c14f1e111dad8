//! Binding modes of the compositor: what the label shows for a mode.
use vstd::prelude::*;

use crate::text::{owned, str_eq};

verus! {

/// A binding-mode change reported by the compositor.
#[derive(Debug, Clone)]
pub struct BindModeUpdate {
    /// The mode's name; empty for the default mode.
    pub name: String,
    /// Whether the name is Pango markup.
    pub pango_markup: bool,
}

/// What the label shows: whether it reads markup, its text, and whether
/// it is visible.
pub struct ModeLabel {
    pub use_markup: bool,
    pub text: String,
    pub visible: bool,
}

impl BindModeUpdate {
    /// The update sent at start so that the label starts hidden.
    pub fn initial() -> (r: BindModeUpdate)
        ensures
            r.name@ == ""@,
            r.pango_markup,
    {
        BindModeUpdate { name: owned(""), pango_markup: true }
    }

    /// The label for the mode: its name, shown only when not empty.
    pub fn label(&self) -> (r: ModeLabel)
        ensures
            r.use_markup == self.pango_markup,
            r.text@ == self.name@,
            r.visible == (self.name@.len() > 0),
    {
        let empty = str_eq(self.name.as_str(), "");
        proof {
            reveal_strlit("");
            if self.name@.len() == 0 {
                assert(self.name@ =~= ""@);
            }
        }
        ModeLabel { use_markup: self.pango_markup, text: self.name.clone(), visible: !empty }
    }
}

/// The text of the Sway mode label: nothing for the `default` mode, else
/// the mode's name.
pub fn sway_mode_text(change: &str) -> (r: String)
    ensures
        r@ == if change@ == "default"@ { ""@ } else { change@ },
{
    if str_eq(change, "default") {
        owned("")
    } else {
        owned(change)
    }
}

} // verus!

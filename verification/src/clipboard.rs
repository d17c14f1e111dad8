//! Clipboard history: the events the client's changes become, the
//! popup's rows and which one is selected, and the ids read back from
//! widget names.
use vstd::prelude::*;

use crate::decimal::{dec, lemma_unsigned_round_trip, parse_unsigned};
use crate::text::{chars_of, owned};

verus! {

/// The kind of a clipboard entry.
#[derive(Debug, Clone, Copy, PartialEq, Eq, Structural)]
pub enum ClipboardKind {
    Text,
    Image,
    Other,
}

/// A change reported by the clipboard client.
#[derive(Debug, Clone, Copy, PartialEq, Eq, Structural)]
pub enum ClipboardEvent {
    Add(usize, ClipboardKind),
    Remove(usize),
    Activate(usize),
}

/// What the controller tells the popup.
#[derive(Debug, Clone, Copy, PartialEq, Eq, Structural)]
pub enum ControllerEvent {
    Add(usize),
    Remove(usize),
    Activate(usize),
    Deactivate,
}

/// What the popup asks of the client.
#[derive(Debug, Clone, Copy, PartialEq, Eq, Structural)]
pub enum UiEvent {
    Copy(usize),
    Remove(usize),
}

/// The popup's message for a client change: a new entry that is neither
/// text nor an image only clears the selection.
pub open spec fn spec_controller_event(e: ClipboardEvent) -> ControllerEvent {
    match e {
        ClipboardEvent::Add(id, kind) => if kind == ClipboardKind::Other {
            ControllerEvent::Deactivate
        } else {
            ControllerEvent::Add(id)
        },
        ClipboardEvent::Remove(id) => ControllerEvent::Remove(id),
        ClipboardEvent::Activate(id) => ControllerEvent::Activate(id),
    }
}

/// The popup's message for a client change.
pub fn controller_event(e: ClipboardEvent) -> (r: ControllerEvent)
    ensures
        r == spec_controller_event(e),
{
    match e {
        ClipboardEvent::Add(id, kind) => match kind {
            ClipboardKind::Other => ControllerEvent::Deactivate,
            _ => ControllerEvent::Add(id),
        },
        ClipboardEvent::Remove(id) => ControllerEvent::Remove(id),
        ClipboardEvent::Activate(id) => ControllerEvent::Activate(id),
    }
}

/// The position of the first `id` in `s`.
pub open spec fn first_index(s: Seq<usize>, id: usize) -> Option<int>
    decreases s.len(),
{
    if s.len() == 0 {
        None
    } else if s[0] == id {
        Some(0)
    } else {
        match first_index(s.drop_first(), id) {
            Some(i) => Some(i + 1),
            None => None,
        }
    }
}

/// `s` without its first `id`.
pub open spec fn without_first(s: Seq<usize>, id: usize) -> Seq<usize> {
    match first_index(s, id) {
        Some(i) => s.remove(i),
        None => s,
    }
}

/// The popup: the ids of its rows from the top, the ids it keeps rows
/// for, and the selected entry (none selected when absent).
#[derive(Debug, Clone)]
pub struct ClipboardPopup {
    pub rows: Vec<usize>,
    pub items: Vec<usize>,
    pub active: Option<usize>,
}

/// The popup after a message.  A new entry goes on top, is kept and
/// selected (an image that cannot be shown is dropped); a removed entry's
/// row goes, and the selection with it when it was selected; an entry is
/// selected when activated (the selection clears when it has no row);
/// deactivation clears the selection.
pub open spec fn spec_apply(
    rows: Seq<usize>,
    items: Seq<usize>,
    active: Option<usize>,
    ev: ControllerEvent,
    shown: bool,
) -> (Seq<usize>, Seq<usize>, Option<usize>) {
    match ev {
        ControllerEvent::Add(id) => if shown {
            (seq![id] + rows, without_first(items, id).push(id), Some(id))
        } else {
            (rows, items, active)
        },
        ControllerEvent::Remove(id) => if items.contains(id) {
            (without_first(rows, id), without_first(items, id), if active == Some(id) { None } else { active })
        } else {
            (rows, items, active)
        },
        ControllerEvent::Activate(id) => (rows, items, if items.contains(id) { Some(id) } else { None }),
        ControllerEvent::Deactivate => (rows, items, None),
    }
}

/// Removes the first `id` from `v`.
fn remove_first(v: &mut Vec<usize>, id: usize)
    ensures
        final(v)@ == without_first(old(v)@, id),
{
    let mut i: usize = 0;
    while i < v.len()
        invariant
            i <= v.len(),
            v@ == old(v)@,
            forall|k: int| 0 <= k < i ==> v@[k] != id,
        decreases v.len() - i,
    {
        if v[i] == id {
            proof {
                lemma_first_index(v@, id, i as int);
            }
            v.remove(i);
            return;
        }
        i = i + 1;
    }
    proof {
        lemma_first_index_none(v@, id);
    }
}

/// The first index is the first position holding the id.
proof fn lemma_first_index(s: Seq<usize>, id: usize, i: int)
    requires
        0 <= i < s.len(),
        s[i] == id,
        forall|k: int| 0 <= k < i ==> s[k] != id,
    ensures
        first_index(s, id) == Some(i),
    decreases s.len(),
{
    if i > 0 {
        lemma_first_index(s.drop_first(), id, i - 1);
    }
}

/// Without the id, there is no first index.
proof fn lemma_first_index_none(s: Seq<usize>, id: usize)
    requires
        forall|k: int| 0 <= k < s.len() ==> s[k] != id,
    ensures
        first_index(s, id) is None,
    decreases s.len(),
{
    if s.len() > 0 {
        lemma_first_index_none(s.drop_first(), id);
    }
}

/// Whether `v` holds `id`.
fn holds(v: &Vec<usize>, id: usize) -> (r: bool)
    ensures
        r == v@.contains(id),
{
    let mut i: usize = 0;
    while i < v.len()
        invariant
            i <= v.len(),
            forall|k: int| 0 <= k < i ==> v@[k] != id,
        decreases v.len() - i,
    {
        if v[i] == id {
            return true;
        }
        i = i + 1;
    }
    false
}

impl ClipboardPopup {
    /// An empty popup with nothing selected.
    pub fn new() -> (r: ClipboardPopup)
        ensures
            r.rows@.len() == 0,
            r.items@.len() == 0,
            r.active is None,
    {
        ClipboardPopup { rows: Vec::new(), items: Vec::new(), active: None }
    }

    /// Applies a message; `shown` tells whether a new entry can be
    /// displayed (an image that does not decode cannot).
    pub fn apply(&mut self, ev: ControllerEvent, shown: bool)
        ensures
            (final(self).rows@, final(self).items@, final(self).active) == spec_apply(
                old(self).rows@,
                old(self).items@,
                old(self).active,
                ev,
                shown,
            ),
    {
        match ev {
            ControllerEvent::Add(id) => {
                if shown {
                    self.rows.insert(0, id);
                    assert(self.rows@ =~= seq![id] + old(self).rows@);
                    remove_first(&mut self.items, id);
                    self.items.push(id);
                    self.active = Some(id);
                }
            },
            ControllerEvent::Remove(id) => {
                if holds(&self.items, id) {
                    remove_first(&mut self.items, id);
                    remove_first(&mut self.rows, id);
                    if self.active == Some(id) {
                        self.active = None;
                    }
                }
            },
            ControllerEvent::Activate(id) => {
                self.active = if holds(&self.items, id) { Some(id) } else { None };
            },
            ControllerEvent::Deactivate => {
                self.active = None;
            },
        }
    }

    /// A row's remove button was clicked: the row goes at once, and the
    /// client is asked to remove the entry.
    pub fn remove_clicked(&mut self, id: usize) -> (r: UiEvent)
        ensures
            final(self).rows@ == without_first(old(self).rows@, id),
            final(self).items@ == old(self).items@,
            final(self).active == old(self).active,
            r == UiEvent::Remove(id),
    {
        remove_first(&mut self.rows, id);
        UiEvent::Remove(id)
    }
}

/// The id in a widget name of the form `<purpose>-<id>`: the text after
/// the first `-`, read as a number.
pub open spec fn spec_button_id(name: Seq<char>) -> Option<nat> {
    match first_dash(name) {
        Some(i) => parse_unsigned(name.skip(i + 1), usize::MAX as nat),
        None => None,
    }
}

/// The position of the first `-`.
pub open spec fn first_dash(s: Seq<char>) -> Option<int>
    decreases s.len(),
{
    if s.len() == 0 {
        None
    } else if s[0] == '-' {
        Some(0)
    } else {
        match first_dash(s.drop_first()) {
            Some(i) => Some(i + 1),
            None => None,
        }
    }
}

/// The id of an entry from a widget's name.
pub fn get_button_id(name: &str) -> (r: Option<usize>)
    ensures
        match spec_button_id(name@) {
            Some(n) => r == Some(n as usize),
            None => r is None,
        },
{
    let v = chars_of(name);
    let mut i: usize = 0;
    while i < v.len()
        invariant
            v@ == name@,
            i <= v.len(),
            forall|k: int| 0 <= k < i ==> v@[k] != '-',
        decreases v.len() - i,
    {
        if v[i] == '-' {
            proof {
                lemma_first_dash(v@, i as int);
            }
            let mut rest: Vec<char> = Vec::new();
            let mut j: usize = i + 1;
            while j < v.len()
                invariant
                    i < v.len(),
                    i + 1 <= j <= v.len(),
                    rest@ == v@.subrange(i + 1, j as int),
                decreases v.len() - j,
            {
                rest.push(v[j]);
                assert(rest@ =~= v@.subrange(i + 1, j + 1));
                j = j + 1;
            }
            assert(rest@ =~= v@.skip(i + 1));
            return crate::decimal::parse_usize(&rest);
        }
        i = i + 1;
    }
    proof {
        lemma_first_dash_none(v@);
    }
    None
}

/// The first dash is the first position holding a dash.
proof fn lemma_first_dash(s: Seq<char>, i: int)
    requires
        0 <= i < s.len(),
        s[i] == '-',
        forall|k: int| 0 <= k < i ==> s[k] != '-',
    ensures
        first_dash(s) == Some(i),
    decreases s.len(),
{
    if i > 0 {
        lemma_first_dash(s.drop_first(), i - 1);
    }
}

/// Without a dash, there is no first dash.
proof fn lemma_first_dash_none(s: Seq<char>)
    requires
        forall|k: int| 0 <= k < s.len() ==> s[k] != '-',
    ensures
        first_dash(s) is None,
    decreases s.len(),
{
    if s.len() > 0 {
        lemma_first_dash_none(s.drop_first());
    }
}

/// A widget named `<purpose>-<id>`, with a purpose that holds no `-`,
/// gives back its id.
pub proof fn lemma_button_id_round_trip(purpose: Seq<char>, id: usize)
    requires
        forall|k: int| 0 <= k < purpose.len() ==> purpose[k] != '-',
    ensures
        spec_button_id(purpose + seq!['-'] + dec(id as nat)) == Some(id as nat),
{
    let name = purpose + seq!['-'] + dec(id as nat);
    assert forall|k: int| 0 <= k < purpose.len() implies name[k] != '-' by {
        assert(name[k] == purpose[k]);
    }
    assert(name[purpose.len() as int] == '-');
    lemma_first_dash(name, purpose.len() as int);
    assert(name.skip(purpose.len() as int + 1) =~= dec(id as nat));
    lemma_unsigned_round_trip(id as nat, usize::MAX as nat);
}

/// The clipboard module's configuration (image sizes are left to the
/// widget).
#[derive(Debug, Clone)]
pub struct ClipboardModule {
    pub icon: String,
    pub icon_size: i32,
    pub max_items: usize,
}

impl ClipboardModule {
    /// The clipboard glyph at 32 pixels; ten entries kept.
    pub fn default() -> (r: ClipboardModule)
        ensures
            r.icon@ == "\u{f0a38}"@,
            r.icon_size == 32,
            r.max_items == 10,
    {
        ClipboardModule { icon: owned("\u{f0a38}"), icon_size: 32, max_items: 10 }
    }
}

} // verus!

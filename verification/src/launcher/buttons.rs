//! The launcher's buttons on the bar: one per application, with its open
//! and focused marks, its window count and its label, and what a click or
//! a hover on it asks for.
use vstd::prelude::*;

use indexmap::IndexMap;

use super::controller::{ItemEvent, LauncherUpdate};
use super::item::{Item, windows_view};
use super::maps::windows_len;
use super::open_state::{spec_is_focused, spec_is_open, OpenState};
use crate::menu::maps::key_pos;

verus! {

/// The state a button shows.
#[derive(Debug, Clone)]
pub struct ItemButton {
    /// Marked open.
    pub open: bool,
    /// Marked focused.
    pub focused: bool,
    /// The number of windows it counts.
    pub num_windows: usize,
    /// A favourite: it stays on the bar when its application closes.
    pub persistent: bool,
    /// The label (empty when names are not shown).
    pub label: String,
}

/// A button as values: open, focused, window count, persistent, label.
pub type ButtonView = (bool, bool, nat, bool, Seq<char>);

/// The values of a button.
pub open spec fn button_view(b: ItemButton) -> ButtonView {
    (b.open, b.focused, b.num_windows as nat, b.persistent, b.label@)
}

/// The (application id, button) pairs of the bar, in order.
pub uninterp spec fn button_entries(m: IndexMap<String, ItemButton>) -> Seq<(Seq<char>, ButtonView)>;

/// `IndexMap::new` for buttons.
#[verifier::external_body]
fn buttons_new() -> (r: IndexMap<String, ItemButton>)
    ensures
        button_entries(r) == Seq::<(Seq<char>, ButtonView)>::empty(),
{
    IndexMap::new()
}

/// `IndexMap::get_index_of` for buttons.
#[verifier::external_body]
fn buttons_index_of(m: &IndexMap<String, ItemButton>, k: &str) -> (r: Option<usize>)
    ensures
        match r {
            Some(i) => key_pos(button_entries(*m), k@) == Some(i as int),
            None => key_pos(button_entries(*m), k@) is None,
        },
{
    m.get_index_of(k)
}

/// `IndexMap::get_index_mut` for buttons, at a position that exists.
#[verifier::external_body]
fn buttons_get_index_mut(m: &mut IndexMap<String, ItemButton>, i: usize) -> (r: &mut ItemButton)
    requires
        i < button_entries(*old(m)).len(),
    ensures
        button_view(*r) == button_entries(*old(m))[i as int].1,
        button_entries(*final(m)) == button_entries(*old(m)).update(
            i as int,
            (button_entries(*old(m))[i as int].0, button_view(*final(r))),
        ),
{
    m.get_index_mut(i).unwrap().1
}

/// `IndexMap::insert` for buttons.
#[verifier::external_body]
fn buttons_insert(m: &mut IndexMap<String, ItemButton>, k: String, v: ItemButton)
    ensures
        button_entries(*final(m)) == crate::menu::maps::view_insert(button_entries(*old(m)), k@, button_view(v)),
{
    m.insert(k, v);
}

/// `IndexMap::shift_remove` for buttons.
#[verifier::external_body]
fn buttons_shift_remove(m: &mut IndexMap<String, ItemButton>, k: &str)
    ensures
        button_entries(*final(m)) == match key_pos(button_entries(*old(m)), k@) {
            Some(i) => button_entries(*old(m)).remove(i),
            None => button_entries(*old(m)),
        },
{
    m.shift_remove(k);
}

impl ItemButton {
    /// The button for an item: marked as the item is open and focused,
    /// counting its windows, persistent for a favourite, labelled with the
    /// item's name when names are shown.
    pub fn new(item: &Item, show_names: bool) -> (r: ItemButton)
        ensures
            r.open == spec_is_open(item.open_state),
            r.focused == spec_is_focused(item.open_state),
            r.num_windows == windows_view(item.windows).len(),
            r.persistent == item.favorite,
            r.label@ == if show_names { item.name@ } else { Seq::<char>::empty() },
    {
        ItemButton {
            open: item.open_state.is_open(),
            focused: item.open_state.is_focused(),
            num_windows: windows_len(&item.windows),
            persistent: item.favorite,
            label: if show_names { item.name.clone() } else { String::new() },
        }
    }

    /// Marks the button open or not; a closed button is not focused.
    pub fn set_open(&mut self, open: bool)
        ensures
            final(self).open == open,
            final(self).focused == (open && old(self).focused),
            final(self).num_windows == old(self).num_windows,
            final(self).persistent == old(self).persistent,
            final(self).label == old(self).label,
    {
        self.open = open;
        if !open {
            self.focused = false;
        }
    }

    /// What a primary click asks: for an open application, to minimise it
    /// when it is focused with one window, else to focus it; otherwise to
    /// open it.
    pub fn on_click(&self, app_id: &String) -> (r: ItemEvent)
        ensures
            if self.open {
                if self.focused && self.num_windows == 1 {
                    r matches ItemEvent::MinimizeItem(a) && a@ == app_id@
                } else {
                    r matches ItemEvent::FocusItem(a) && a@ == app_id@
                }
            } else {
                r matches ItemEvent::OpenItem(a) && a@ == app_id@
            },
    {
        if self.open {
            if self.focused && self.num_windows == 1 {
                ItemEvent::MinimizeItem(app_id.clone())
            } else {
                ItemEvent::FocusItem(app_id.clone())
            }
        } else {
            ItemEvent::OpenItem(app_id.clone())
        }
    }

    /// Whether hovering opens the popup (else it closes): with previews
    /// shown and a window, or with more than one window.
    pub fn opens_popup(&self, show_previews: bool) -> (r: bool)
        ensures
            r == ((show_previews && self.num_windows > 0) || self.num_windows > 1),
    {
        (show_previews && self.num_windows > 0) || self.num_windows > 1
    }
}

/// The icon an item's button loads: its application id, or its name when
/// the id is empty.
pub fn icon_input(item: &Item) -> (r: String)
    ensures
        r@ == if item.app_id@.len() == 0 { item.name@ } else { item.app_id@ },
{
    if crate::text::str_eq(item.app_id.as_str(), "") {
        proof {
            reveal_strlit("");
        }
        item.name.clone()
    } else {
        proof {
            reveal_strlit("");
            if item.app_id@.len() == 0 {
                assert(item.app_id@ =~= ""@);
            }
        }
        item.app_id.clone()
    }
}

/// What happened to the bar's buttons.
pub enum ButtonChange {
    /// A button was added for this application.
    Added(String),
    /// This application's button was removed.
    Removed(String),
    /// Nothing was added or removed.
    Kept,
}

/// The bar's buttons, by application id, in the order they were added.
pub struct LauncherButtons {
    pub buttons: IndexMap<String, ItemButton>,
}

/// `b` marked open or not (a closed button is not focused).
pub open spec fn opened(b: ButtonView, open: bool) -> ButtonView {
    (open, open && b.1, b.2, b.3, b.4)
}

/// `b` with its focus mark set.
pub open spec fn focused_as(b: ButtonView, focused: bool) -> ButtonView {
    (b.0, focused, b.2, b.3, b.4)
}

/// The buttons after an update: a new item gets a button (or marks its
/// button open and focused as the item is); a new window marks the
/// button open, focused as the window is, and counts it; a removed item
/// closes a favourite's button (relabelled with its id when names are
/// shown) and removes any other; a removed window unfocuses the button
/// and uncounts it; focus and title changes mark and relabel.
pub open spec fn spec_apply(
    e: Seq<(Seq<char>, ButtonView)>,
    u: LauncherUpdate,
    show_names: bool,
) -> Seq<(Seq<char>, ButtonView)> {
    match u {
        LauncherUpdate::AddItem(item) => match key_pos(e, item.app_id@) {
            Some(i) => e.update(i, (e[i].0, focused_as(opened(e[i].1, true), spec_is_focused(item.open_state)))),
            None => e.push((
                item.app_id@,
                (
                    spec_is_open(item.open_state),
                    spec_is_focused(item.open_state),
                    windows_view(item.windows).len(),
                    item.favorite,
                    if show_names { item.name@ } else { Seq::<char>::empty() },
                ),
            )),
        },
        LauncherUpdate::AddWindow(app_id, w) => match key_pos(e, app_id@) {
            Some(i) => {
                let b = focused_as(opened(e[i].1, true), spec_is_focused(w.open_state));
                e.update(i, (e[i].0, (b.0, b.1, b.2 + 1, b.3, b.4)))
            },
            None => e,
        },
        LauncherUpdate::RemoveItem(app_id) => match key_pos(e, app_id@) {
            Some(i) => if e[i].1.3 {
                let b = opened(e[i].1, false);
                e.update(i, (e[i].0, (b.0, b.1, b.2, b.3, if show_names { app_id@ } else { b.4 })))
            } else {
                e.remove(i)
            },
            None => e,
        },
        LauncherUpdate::RemoveWindow(app_id, _) => match key_pos(e, app_id@) {
            Some(i) => {
                let b = focused_as(e[i].1, false);
                e.update(i, (e[i].0, (b.0, b.1, (b.2 - 1) as nat, b.3, b.4)))
            },
            None => e,
        },
        LauncherUpdate::Focus(app_id, f) => match key_pos(e, app_id@) {
            Some(i) => e.update(i, (e[i].0, focused_as(e[i].1, f))),
            None => e,
        },
        LauncherUpdate::Title(app_id, _, name) => if show_names {
            match key_pos(e, app_id@) {
                Some(i) => {
                    let b = e[i].1;
                    e.update(i, (e[i].0, (b.0, b.1, b.2, b.3, name@)))
                },
                None => e,
            }
        } else {
            e
        },
        LauncherUpdate::Hover(_) => e,
    }
}

/// Whether the update's window count stays in range: a new window needs
/// room to count, a removed window needs one counted.
pub open spec fn count_in_range(e: Seq<(Seq<char>, ButtonView)>, u: LauncherUpdate) -> bool {
    match u {
        LauncherUpdate::AddWindow(app_id, _) => match key_pos(e, app_id@) {
            Some(i) => e[i].1.2 < usize::MAX,
            None => true,
        },
        LauncherUpdate::RemoveWindow(app_id, _) => match key_pos(e, app_id@) {
            Some(i) => e[i].1.2 > 0,
            None => true,
        },
        _ => true,
    }
}

/// The change reported for applying `u` to buttons `e`: a new button for
/// an item not shown yet, a removed button for an item that goes and is not
/// pinned, and nothing otherwise.
pub open spec fn spec_change(e: Seq<(Seq<char>, ButtonView)>, u: LauncherUpdate, r: ButtonChange) -> bool {
    match r {
        ButtonChange::Added(a) => u matches LauncherUpdate::AddItem(item) && a@ == item.app_id@
            && key_pos(e, item.app_id@) is None,
        ButtonChange::Removed(a) => u matches LauncherUpdate::RemoveItem(id) && a@ == id@
            && (key_pos(e, id@) matches Some(i) && !e[i].1.3),
        ButtonChange::Kept => !(u matches LauncherUpdate::AddItem(item) && key_pos(e, item.app_id@) is None)
            && !(u matches LauncherUpdate::RemoveItem(id) && (key_pos(e, id@) matches Some(i) && !e[i].1.3)),
    }
}

impl LauncherButtons {
    /// No buttons.
    pub fn new() -> (r: LauncherButtons)
        ensures
            button_entries(r.buttons).len() == 0,
    {
        LauncherButtons { buttons: buttons_new() }
    }

    /// Whether applying `u` keeps the window counts in range (a count
    /// that would leave it is an arithmetic overflow).
    pub fn counts_in_range(&self, u: &LauncherUpdate) -> (r: bool)
        ensures
            r == count_in_range(button_entries(self.buttons), *u),
    {
        match u {
            LauncherUpdate::AddWindow(app_id, _) => match buttons_index_of(&self.buttons, app_id.as_str()) {
                Some(i) => {
                    proof {
                        crate::menu::maps::lemma_key_pos(button_entries(self.buttons), app_id@);
                    }
                    let b = buttons_get_ref(&self.buttons, i);
                    b.num_windows < usize::MAX
                },
                None => true,
            },
            LauncherUpdate::RemoveWindow(app_id, _) => match buttons_index_of(&self.buttons, app_id.as_str()) {
                Some(i) => {
                    proof {
                        crate::menu::maps::lemma_key_pos(button_entries(self.buttons), app_id@);
                    }
                    let b = buttons_get_ref(&self.buttons, i);
                    b.num_windows > 0
                },
                None => true,
            },
            _ => true,
        }
    }

    /// Applies an update when it keeps the window counts in range, and
    /// leaves the buttons as they are (giving `None`) when it does not.
    pub fn try_apply(&mut self, u: &LauncherUpdate, show_names: bool) -> (r: Option<ButtonChange>)
        ensures
            count_in_range(button_entries(old(self).buttons), *u) ==> (r matches Some(c)
                && button_entries(final(self).buttons) == spec_apply(button_entries(old(self).buttons), *u, show_names)
                && spec_change(button_entries(old(self).buttons), *u, c)),
            !count_in_range(button_entries(old(self).buttons), *u) ==> r is None
                && button_entries(final(self).buttons) == button_entries(old(self).buttons),
    {
        if self.counts_in_range(u) {
            Some(self.apply(u, show_names))
        } else {
            None
        }
    }

    /// Applies an update from the controller to the buttons.
    pub fn apply(&mut self, u: &LauncherUpdate, show_names: bool) -> (r: ButtonChange)
        requires
            count_in_range(button_entries(old(self).buttons), *u),
        ensures
            button_entries(final(self).buttons) == spec_apply(button_entries(old(self).buttons), *u, show_names),
            spec_change(button_entries(old(self).buttons), *u, r),
    {
        let ghost e = button_entries(self.buttons);
        match u {
            LauncherUpdate::AddItem(item) => match buttons_index_of(&self.buttons, item.app_id.as_str()) {
                Some(i) => {
                    proof {
                        crate::menu::maps::lemma_key_pos(e, item.app_id@);
                    }
                    let b = buttons_get_index_mut(&mut self.buttons, i);
                    b.set_open(true);
                    b.focused = item.open_state.is_focused();
                    ButtonChange::Kept
                },
                None => {
                    let b = ItemButton::new(item, show_names);
                    buttons_insert(&mut self.buttons, item.app_id.clone(), b);
                    ButtonChange::Added(item.app_id.clone())
                },
            },
            LauncherUpdate::AddWindow(app_id, w) => {
                if let Some(i) = buttons_index_of(&self.buttons, app_id.as_str()) {
                    proof {
                        crate::menu::maps::lemma_key_pos(e, app_id@);
                    }
                    let b = buttons_get_index_mut(&mut self.buttons, i);
                    b.set_open(true);
                    b.focused = w.open_state.is_focused();
                    b.num_windows = b.num_windows + 1;
                }
                ButtonChange::Kept
            },
            LauncherUpdate::RemoveItem(app_id) => match buttons_index_of(&self.buttons, app_id.as_str()) {
                Some(i) => {
                    proof {
                        crate::menu::maps::lemma_key_pos(e, app_id@);
                    }
                    let persistent = buttons_get_ref(&self.buttons, i).persistent;
                    if persistent {
                        let b = buttons_get_index_mut(&mut self.buttons, i);
                        b.set_open(false);
                        if show_names {
                            b.label = app_id.clone();
                        }
                        ButtonChange::Kept
                    } else {
                        buttons_shift_remove(&mut self.buttons, app_id.as_str());
                        ButtonChange::Removed(app_id.clone())
                    }
                },
                None => ButtonChange::Kept,
            },
            LauncherUpdate::RemoveWindow(app_id, _) => {
                if let Some(i) = buttons_index_of(&self.buttons, app_id.as_str()) {
                    proof {
                        crate::menu::maps::lemma_key_pos(e, app_id@);
                    }
                    let b = buttons_get_index_mut(&mut self.buttons, i);
                    b.focused = false;
                    b.num_windows = b.num_windows - 1;
                }
                ButtonChange::Kept
            },
            LauncherUpdate::Focus(app_id, f) => {
                if let Some(i) = buttons_index_of(&self.buttons, app_id.as_str()) {
                    proof {
                        crate::menu::maps::lemma_key_pos(e, app_id@);
                    }
                    let b = buttons_get_index_mut(&mut self.buttons, i);
                    b.focused = *f;
                }
                ButtonChange::Kept
            },
            LauncherUpdate::Title(app_id, _, name) => {
                if show_names {
                    if let Some(i) = buttons_index_of(&self.buttons, app_id.as_str()) {
                        proof {
                            crate::menu::maps::lemma_key_pos(e, app_id@);
                        }
                        let b = buttons_get_index_mut(&mut self.buttons, i);
                        b.label = name.clone();
                    }
                }
                ButtonChange::Kept
            },
            LauncherUpdate::Hover(_) => ButtonChange::Kept,
        }
    }
}

/// `IndexMap::get_index` for buttons, the button only, at a position
/// that exists.
#[verifier::external_body]
fn buttons_get_ref(m: &IndexMap<String, ItemButton>, i: usize) -> (r: &ItemButton)
    requires
        i < button_entries(*m).len(),
    ensures
        button_view(*r) == button_entries(*m)[i as int].1,
{
    m.get_index(i).unwrap().1
}

} // verus!

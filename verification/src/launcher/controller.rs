//! How the launcher's items change with window-manager events, what the
//! widget is told in turn, and which window a click acts on.
use vstd::prelude::*;

use indexmap::IndexMap;

use super::item::{
    lemma_key_position_views, lemma_window_states_view, state_is_merged, view_states,
    window_of, windows_view, Item, ItemView, Window, WindowView,
};
use super::maps::{
    entries_inserted, entries_removed, item_entries, items_get_index, items_get_index_mut,
    items_index_of, items_insert, items_len, items_new, items_shift_remove, key_position,
    window_entries, windows_get_index, windows_index_of, windows_len,
};
use super::open_state::{merge2, merged, spec_is_focused, spec_is_open, OpenState};
use super::ToplevelInfo;
use crate::menu::maps::{key_pos, view_insert};

verus! {

/// A change the window manager reports.
pub enum ToplevelEvent {
    New(ToplevelInfo),
    Update(ToplevelInfo),
    Remove(ToplevelInfo),
}

/// What the launcher widget is told to change.
pub enum LauncherUpdate {
    AddItem(Item),
    AddWindow(String, Window),
    RemoveItem(String),
    RemoveWindow(String, usize),
    Title(String, usize, String),
    Focus(String, bool),
    Hover(String),
}

/// `LauncherUpdate` as plain values.
pub enum LauncherUpdateView {
    AddItem(ItemView),
    AddWindow(Seq<char>, WindowView),
    RemoveItem(Seq<char>),
    RemoveWindow(Seq<char>, usize),
    Title(Seq<char>, usize, Seq<char>),
    Focus(Seq<char>, bool),
    Hover(Seq<char>),
}

impl View for LauncherUpdate {
    type V = LauncherUpdateView;

    open spec fn view(&self) -> LauncherUpdateView {
        match self {
            LauncherUpdate::AddItem(i) => LauncherUpdateView::AddItem(i@),
            LauncherUpdate::AddWindow(a, w) => LauncherUpdateView::AddWindow(a@, w@),
            LauncherUpdate::RemoveItem(a) => LauncherUpdateView::RemoveItem(a@),
            LauncherUpdate::RemoveWindow(a, id) => LauncherUpdateView::RemoveWindow(a@, *id),
            LauncherUpdate::Title(a, id, t) => LauncherUpdateView::Title(a@, *id, t@),
            LauncherUpdate::Focus(a, f) => LauncherUpdateView::Focus(a@, *f),
            LauncherUpdate::Hover(a) => LauncherUpdateView::Hover(a@),
        }
    }
}

/// The views of a list of updates.
pub open spec fn updates_view(v: Seq<LauncherUpdate>) -> Seq<LauncherUpdateView> {
    v.map_values(|u: LauncherUpdate| u@)
}

/// The items of a map, as plain values, in order.
pub open spec fn items_view(m: IndexMap<String, Item>) -> Seq<(Seq<char>, ItemView)> {
    item_entries(m).map_values(|e: (String, Item)| (e.0@, e.1@))
}

/// The item a new application's first window makes.
pub open spec fn item_of(info: ToplevelInfo) -> ItemView {
    ItemView {
        app_id: info.app_id@,
        favorite: false,
        open_state: OpenState::Open { focused: info.focused },
        windows: seq![(info.id, window_of(info))],
        name: info.title@,
    }
}

/// `iv` with the toplevel's window added.  The first window names the item.
pub open spec fn with_window(iv: ItemView, info: ToplevelInfo) -> ItemView {
    let windows = entries_inserted(iv.windows, info.id, window_of(info));
    ItemView {
        app_id: iv.app_id,
        favorite: iv.favorite,
        open_state: merged(view_states(windows)),
        windows,
        name: if iv.windows.len() == 0 { info.title@ } else { iv.name },
    }
}

/// `iv` without window `id`.
pub open spec fn without_window(iv: ItemView, id: usize) -> ItemView {
    let windows = entries_removed(iv.windows, id);
    ItemView {
        app_id: iv.app_id,
        favorite: iv.favorite,
        open_state: merged(view_states(windows)),
        windows,
        name: iv.name,
    }
}

/// `iv` after a toplevel update: the window's focus is merged into its
/// state, it takes the new title, and the item takes the title too when
/// the window is focused.
pub open spec fn with_update(iv: ItemView, info: ToplevelInfo) -> ItemView {
    match key_position(iv.windows, info.id) {
        None => iv,
        Some(j) => {
            let w = iv.windows[j].1;
            let w2 = WindowView {
                open_state: merge2(w.open_state, OpenState::Open { focused: info.focused }),
                name: info.title@,
                ..w
            };
            let windows = iv.windows.update(j, (info.id, w2));
            ItemView {
                app_id: iv.app_id,
                favorite: iv.favorite,
                open_state: merged(view_states(windows)),
                windows,
                name: if w2.open_state == (OpenState::Open { focused: true }) {
                    info.title@
                } else {
                    iv.name
                },
            }
        },
    }
}

/// A key that is absent is found last after it is appended.
proof fn lemma_key_position_push<V>(e: Seq<(usize, V)>, k: usize, v: V)
    requires
        key_position(e, k) is None,
    ensures
        key_position(e.push((k, v)), k) == Some(e.len() as int),
{
    assert(e.push((k, v)).drop_last() =~= e);
}

/// Closing a window that just opened gives back the item as it was (for
/// an item that already had windows, so that its name stays).
pub proof fn lemma_remove_undoes_new(iv: ItemView, info: ToplevelInfo)
    requires
        key_position(iv.windows, info.id) is None,
        iv.windows.len() > 0,
        iv.open_state == merged(view_states(iv.windows)),
    ensures
        without_window(with_window(iv, info), info.id) == iv,
{
    let w = with_window(iv, info);
    lemma_key_position_push(iv.windows, info.id, window_of(info));
    assert(w.windows == iv.windows.push((info.id, window_of(info))));
    assert(entries_removed(w.windows, info.id) =~= iv.windows);
}

proof fn lemma_key_position_update<K: View, V>(e: Seq<(K, V)>, j: int, v: V, k: K::V)
    requires
        0 <= j < e.len(),
    ensures
        key_position(e.update(j, (e[j].0, v)), k) == key_position(e, k),
    decreases e.len(),
{
    if e.len() > 0 {
        if j < e.len() - 1 {
            assert(e.update(j, (e[j].0, v)).drop_last() =~= e.drop_last().update(j, (e[j].0, v)));
            lemma_key_position_update(e.drop_last(), j, v, k);
        } else {
            assert(e.update(j, (e[j].0, v)).drop_last() =~= e.drop_last());
        }
    }
}

proof fn lemma_key_position_bounds<K: View, V>(e: Seq<(K, V)>, k: K::V)
    ensures
        key_position(e, k) matches Some(i) ==> 0 <= i < e.len() && e[i].0@ == k,
    decreases e.len(),
{
    if e.len() > 0 {
        lemma_key_position_bounds(e.drop_last(), k);
    }
}

proof fn lemma_items_view_update(e: Seq<(String, Item)>, i: int, it: Item)
    requires
        0 <= i < e.len(),
    ensures
        e.update(i, (e[i].0, it)).map_values(|e: (String, Item)| (e.0@, e.1@)) == e.map_values(
            |e: (String, Item)| (e.0@, e.1@),
        ).update(i, (e[i].0@, it@)),
{
    assert(e.update(i, (e[i].0, it)).map_values(|e: (String, Item)| (e.0@, e.1@)) =~= e.map_values(
        |e: (String, Item)| (e.0@, e.1@),
    ).update(i, (e[i].0@, it@)));
}

impl ToplevelInfo {
    /// A copy of this description.
    pub fn duplicate(&self) -> (r: ToplevelInfo)
        ensures
            r.id == self.id,
            r.app_id@ == self.app_id@,
            r.title@ == self.title@,
            r.focused == self.focused,
    {
        ToplevelInfo {
            id: self.id,
            app_id: self.app_id.clone(),
            title: self.title.clone(),
            focused: self.focused,
        }
    }
}

/// A closed favourite with no windows.
pub open spec fn favorite_view(app_id: Seq<char>) -> ItemView {
    ItemView {
        app_id,
        favorite: true,
        open_state: OpenState::Closed,
        windows: seq![],
        name: seq![],
    }
}

/// The items for the configured favourites: one per application id, in
/// the order they are first given.
pub open spec fn favorite_entries(favs: Seq<String>) -> Seq<(Seq<char>, ItemView)>
    decreases favs.len(),
{
    if favs.len() == 0 {
        seq![]
    } else {
        let k = favs.last()@;
        view_insert(favorite_entries(favs.drop_last()), k, favorite_view(k))
    }
}

/// Looking a key up in the items or in their views finds the same place.
proof fn lemma_item_key_views(e: Seq<(String, Item)>, k: Seq<char>)
    ensures
        key_pos(e.map_values(|e: (String, Item)| (e.0@, e.1@)), k) == key_position(e, k),
    decreases e.len(),
{
    if e.len() > 0 {
        lemma_item_key_views(e.drop_last(), k);
        assert(e.map_values(|e: (String, Item)| (e.0@, e.1@)).drop_last() =~= e.drop_last().map_values(
            |e: (String, Item)| (e.0@, e.1@),
        ));
    }
}

/// Inserting into the items inserts the views into their views.
proof fn lemma_items_view_insert(e: Seq<(String, Item)>, k: String, v: Item)
    ensures
        entries_inserted(e, k, v).map_values(|e: (String, Item)| (e.0@, e.1@)) == view_insert(
            e.map_values(|e: (String, Item)| (e.0@, e.1@)),
            k@,
            v@,
        ),
{
    lemma_item_key_views(e, k@);
    lemma_key_position_bounds(e, k@);
    assert(entries_inserted(e, k, v).map_values(|e: (String, Item)| (e.0@, e.1@)) =~= view_insert(
        e.map_values(|e: (String, Item)| (e.0@, e.1@)),
        k@,
        v@,
    ));
}

/// The launcher's items at start: one closed favourite per configured
/// application id, in order (a repeated id keeps its first place).
pub fn initial_items(favorites: Option<&Vec<String>>) -> (r: IndexMap<String, Item>)
    ensures
        items_view(r) == match favorites {
            Some(favs) => favorite_entries(favs@),
            None => Seq::<(Seq<char>, ItemView)>::empty(),
        },
        forall|i: int| 0 <= i < item_entries(r).len() ==> {
            let it = #[trigger] item_entries(r)[i].1;
            &&& it.favorite
            &&& it.open_state == OpenState::Closed
            &&& windows_view(it.windows).len() == 0
            &&& it.app_id@ == item_entries(r)[i].0@
        },
{
    let mut items = items_new();
    proof {
        assert(items_view(items) =~= Seq::<(Seq<char>, ItemView)>::empty());
    }
    if let Some(favs) = favorites {
        let mut k: usize = 0;
        while k < favs.len()
            invariant
                k <= favs.len(),
                items_view(items) == favorite_entries(favs@.take(k as int)),
                forall|i: int| 0 <= i < item_entries(items).len() ==> {
                    let it = #[trigger] item_entries(items)[i].1;
                    &&& it.favorite
                    &&& it.open_state == OpenState::Closed
                    &&& windows_view(it.windows).len() == 0
                    &&& it.app_id@ == item_entries(items)[i].0@
                },
            decreases favs.len() - k,
        {
            let app_id = favs[k].clone();
            let item = Item::new(app_id.clone(), OpenState::Closed, true);
            let ghost before = item_entries(items);
            items_insert(&mut items, app_id, item);
            proof {
                lemma_key_position_bounds(before, favs@[k as int]@);
                lemma_items_view_insert(before, favs@[k as int], item);
                assert(item@ == favorite_view(favs@[k as int]@));
                assert(favs@.take(k + 1).drop_last() =~= favs@.take(k as int));
                assert(favs@.take(k + 1).last() == favs@[k as int]);
            }
            k = k + 1;
        }
        assert(favs@.take(favs.len() as int) =~= favs@);
    }
    items
}

/// Adds a toplevel that exists at start: to its application's item when
/// there is one, else as a new item.
pub fn add_toplevel(items: &mut IndexMap<String, Item>, info: ToplevelInfo)
    ensures
        match key_position(item_entries(*old(items)), info.app_id@) {
            Some(i) => items_view(*final(items)) == items_view(*old(items)).update(
                i,
                (items_view(*old(items))[i].0, with_window(items_view(*old(items))[i].1, info)),
            ),
            None => items_view(*final(items)) == items_view(*old(items)).push((info.app_id@, item_of(info))),
        },
{
    let _ = handle_new(items, info);
}

fn handle_new(items: &mut IndexMap<String, Item>, info: ToplevelInfo) -> (r: LauncherUpdate)
    ensures
        match key_position(item_entries(*old(items)), info.app_id@) {
            Some(i) => {
                &&& items_view(*final(items)) == items_view(*old(items)).update(
                    i,
                    (items_view(*old(items))[i].0, with_window(items_view(*old(items))[i].1, info)),
                )
                &&& r@ == LauncherUpdateView::AddWindow(info.app_id@, window_of(info))
            },
            None => {
                &&& items_view(*final(items)) == items_view(*old(items)).push((info.app_id@, item_of(info)))
                &&& r@ == LauncherUpdateView::AddItem(item_of(info))
            },
        },
{
    let ghost before = item_entries(*items);
    let app_id = info.app_id.clone();
    match items_index_of(items, app_id.as_str()) {
        Some(i) => {
            proof {
                lemma_key_position_bounds(before, info.app_id@);
            }
            let item = items_get_index_mut(items, i);
            let ghost old_item = *item;
            let window = item.merge_toplevel(info);
            proof {
                lemma_window_states_view(item.windows);
                let iv = old_item@;
                assert(item.open_state == merged(view_states(windows_view(item.windows))));
                assert((*item)@ == with_window(iv, info));
                lemma_items_view_update(before, i as int, *item);
            }
            LauncherUpdate::AddWindow(app_id, window)
        },
        None => {
            let copy = info.duplicate();
            let item = Item::from(copy);
            let shown = Item::from(info);
            proof {
                lemma_window_states_view(item.windows);
                assert(item@ == item_of(info));
                assert(shown@ == item_of(info));
            }
            items_insert(items, app_id, item);
            proof {
                assert(items_view(*items) =~= items_view(*old(items)).push((info.app_id@, item_of(info))));
            }
            LauncherUpdate::AddItem(shown)
        },
    }
}

fn handle_update(items: &mut IndexMap<String, Item>, info: ToplevelInfo) -> (r: Vec<LauncherUpdate>)
    ensures
        match key_position(item_entries(*old(items)), info.app_id@) {
            Some(i) => {
                let iv = with_update(items_view(*old(items))[i].1, info);
                &&& items_view(*final(items)) == items_view(*old(items)).update(i, (items_view(*old(items))[i].0, iv))
                &&& updates_view(r@) == seq![
                    LauncherUpdateView::Focus(info.app_id@, spec_is_open(iv.open_state) && info.focused),
                    LauncherUpdateView::Title(info.app_id@, info.id, info.title@),
                ]
            },
            None => {
                &&& items_view(*final(items)) == items_view(*old(items))
                &&& updates_view(r@) == seq![
                    LauncherUpdateView::Focus(info.app_id@, false),
                    LauncherUpdateView::Title(info.app_id@, info.id, info.title@),
                ]
            },
        },
{
    let ghost before = item_entries(*items);
    let is_open = match items_index_of(items, info.app_id.as_str()) {
        Some(i) => {
            proof {
                lemma_key_position_bounds(before, info.app_id@);
            }
            let item = items_get_index_mut(items, i);
            let ghost item0 = *item;
            proof {
                lemma_key_position_views(window_entries(item0.windows), info.id);
            }
            item.set_window_focused(info.id, info.focused);
            let ghost item1 = *item;
            proof {
                lemma_key_position_views(window_entries(item1.windows), info.id);
                match key_position(window_entries(item0.windows), info.id) {
                    Some(j) => {
                        assert(windows_view(item1.windows)[j].0 == windows_view(item0.windows)[j].0);
                        lemma_key_position_update(windows_view(item0.windows), j, windows_view(item1.windows)[j].1, info.id);
                        assert(key_position(windows_view(item1.windows), info.id) == Some(j));
                    },
                    None => {},
                }
            }
            item.set_window_name(info.id, info.title.clone());
            proof {
                lemma_window_states_view(item.windows);
                lemma_window_states_view(item1.windows);
                let iv = item0@;
                match key_position(window_entries(item0.windows), info.id) {
                    Some(j) => {
                        assert(windows_view(item.windows) =~= with_update(iv, info).windows);
                        assert((*item)@ == with_update(iv, info));
                    },
                    None => {
                        assert((*item)@ == with_update(iv, info));
                    },
                }
                lemma_items_view_update(before, i as int, *item);
            }
            item.open_state.is_open()
        },
        None => false,
    };
    let mut out: Vec<LauncherUpdate> = Vec::new();
    out.push(LauncherUpdate::Focus(info.app_id.clone(), is_open && info.focused));
    out.push(LauncherUpdate::Title(info.app_id.clone(), info.id, info.title.clone()));
    proof {
        assert(updates_view(out@) =~= seq![
            LauncherUpdateView::Focus(info.app_id@, is_open && info.focused),
            LauncherUpdateView::Title(info.app_id@, info.id, info.title@),
        ]);
    }
    out
}

fn handle_remove(items: &mut IndexMap<String, Item>, info: ToplevelInfo) -> (r: Vec<LauncherUpdate>)
    ensures
        match key_position(item_entries(*old(items)), info.app_id@) {
            Some(i) => {
                let iv = without_window(items_view(*old(items))[i].1, info.id);
                if iv.windows.len() == 0 {
                    &&& items_view(*final(items)) == items_view(*old(items)).remove(i)
                    &&& updates_view(r@) == seq![LauncherUpdateView::RemoveItem(info.app_id@)]
                } else {
                    &&& items_view(*final(items)) == items_view(*old(items)).update(i, (items_view(*old(items))[i].0, iv))
                    &&& updates_view(r@) == seq![LauncherUpdateView::RemoveWindow(info.app_id@, info.id)]
                }
            },
            None => {
                &&& items_view(*final(items)) == items_view(*old(items))
                &&& updates_view(r@) == Seq::<LauncherUpdateView>::empty()
            },
        },
{
    let ghost before = item_entries(*items);
    let mut out: Vec<LauncherUpdate> = Vec::new();
    match items_index_of(items, info.app_id.as_str()) {
        Some(i) => {
            proof {
                lemma_key_position_bounds(before, info.app_id@);
            }
            let item = items_get_index_mut(items, i);
            let ghost item0 = *item;
            item.unmerge_toplevel(&info);
            let empty = windows_len(&item.windows) == 0;
            proof {
                lemma_window_states_view(item.windows);
                assert((*item)@ == without_window(item0@, info.id));
                lemma_items_view_update(before, i as int, *item);
            }
            if empty {
                let ghost mid = item_entries(*items);
                proof {
                    lemma_key_position_update(before, i as int, mid[i as int].1, info.app_id@);
                }
                items_shift_remove(items, info.app_id.as_str());
                proof {
                    assert(items_view(*items) =~= items_view(*old(items)).remove(i as int));
                }
                out.push(LauncherUpdate::RemoveItem(info.app_id.clone()));
            } else {
                out.push(LauncherUpdate::RemoveWindow(info.app_id.clone(), info.id));
            }
        },
        None => {},
    }
    proof {
        assert(updates_view(out@) =~= match key_position(before, info.app_id@) {
            Some(i) => if without_window(items_view(*old(items))[i].1, info.id).windows.len() == 0 {
                seq![LauncherUpdateView::RemoveItem(info.app_id@)]
            } else {
                seq![LauncherUpdateView::RemoveWindow(info.app_id@, info.id)]
            },
            None => Seq::<LauncherUpdateView>::empty(),
        });
    }
    out
}

/// Applies a window-manager event to the launcher's items and returns what
/// the widget must be told.
pub fn handle_toplevel_event(items: &mut IndexMap<String, Item>, event: ToplevelEvent) -> (r: Vec<LauncherUpdate>)
    ensures
        match event {
            ToplevelEvent::New(info) => match key_position(item_entries(*old(items)), info.app_id@) {
                Some(i) => {
                    &&& items_view(*final(items)) == items_view(*old(items)).update(
                        i,
                        (items_view(*old(items))[i].0, with_window(items_view(*old(items))[i].1, info)),
                    )
                    &&& updates_view(r@) == seq![LauncherUpdateView::AddWindow(info.app_id@, window_of(info))]
                },
                None => {
                    &&& items_view(*final(items)) == items_view(*old(items)).push((info.app_id@, item_of(info)))
                    &&& updates_view(r@) == seq![LauncherUpdateView::AddItem(item_of(info))]
                },
            },
            ToplevelEvent::Update(info) => match key_position(item_entries(*old(items)), info.app_id@) {
                Some(i) => {
                    let iv = with_update(items_view(*old(items))[i].1, info);
                    &&& items_view(*final(items)) == items_view(*old(items)).update(i, (items_view(*old(items))[i].0, iv))
                    &&& updates_view(r@) == seq![
                        LauncherUpdateView::Focus(info.app_id@, spec_is_open(iv.open_state) && info.focused),
                        LauncherUpdateView::Title(info.app_id@, info.id, info.title@),
                    ]
                },
                None => {
                    &&& items_view(*final(items)) == items_view(*old(items))
                    &&& updates_view(r@) == seq![
                        LauncherUpdateView::Focus(info.app_id@, false),
                        LauncherUpdateView::Title(info.app_id@, info.id, info.title@),
                    ]
                },
            },
            ToplevelEvent::Remove(info) => match key_position(item_entries(*old(items)), info.app_id@) {
                Some(i) => {
                    let iv = without_window(items_view(*old(items))[i].1, info.id);
                    if iv.windows.len() == 0 {
                        &&& items_view(*final(items)) == items_view(*old(items)).remove(i)
                        &&& updates_view(r@) == seq![LauncherUpdateView::RemoveItem(info.app_id@)]
                    } else {
                        &&& items_view(*final(items)) == items_view(*old(items)).update(i, (items_view(*old(items))[i].0, iv))
                        &&& updates_view(r@) == seq![LauncherUpdateView::RemoveWindow(info.app_id@, info.id)]
                    }
                },
                None => {
                    &&& items_view(*final(items)) == items_view(*old(items))
                    &&& updates_view(r@) == Seq::<LauncherUpdateView>::empty()
                },
            },
        },
{
    match event {
        ToplevelEvent::New(info) => {
            let u = handle_new(items, info);
            let mut out: Vec<LauncherUpdate> = Vec::new();
            out.push(u);
            proof {
                assert(updates_view(out@) =~= seq![out@[0]@]);
            }
            out
        },
        ToplevelEvent::Update(info) => handle_update(items, info),
        ToplevelEvent::Remove(info) => handle_remove(items, info),
    }
}

/// What the widget is told at start: every item, in order.
pub fn initial_updates(items: &IndexMap<String, Item>) -> (r: Vec<LauncherUpdate>)
    ensures
        updates_view(r@) == items_view(*items).map_values(
            |e: (Seq<char>, ItemView)| LauncherUpdateView::AddItem(e.1),
        ),
{
    let n = items_len(items);
    let mut out: Vec<LauncherUpdate> = Vec::new();
    let mut i: usize = 0;
    while i < n
        invariant
            i <= n,
            n == item_entries(*items).len(),
            out@.len() == i,
            forall|k: int| 0 <= k < i ==> #[trigger] out@[k]@ == LauncherUpdateView::AddItem(item_entries(*items)[k].1@),
        decreases n - i,
    {
        let (_, item) = items_get_index(items, i);
        out.push(LauncherUpdate::AddItem(item.duplicate()));
        i = i + 1;
    }
    proof {
        assert(updates_view(out@) =~= items_view(*items).map_values(
            |e: (Seq<char>, ItemView)| LauncherUpdateView::AddItem(e.1),
        ));
    }
    out
}

/// A click on a launcher button, or on a window in its popup.
pub enum ItemEvent {
    FocusItem(String),
    FocusWindow(usize),
    OpenItem(String),
    MinimizeItem(String),
}

/// What to ask the window manager to do with a window.
#[derive(Debug, Clone, Copy, PartialEq, Eq, Structural)]
pub enum WindowAction {
    Focus(usize),
    Minimize(usize),
}

/// The position of the first window that is not focused.
pub open spec fn first_unfocused(ws: Seq<(usize, WindowView)>) -> Option<int>
    decreases ws.len(),
{
    if ws.len() == 0 {
        None
    } else {
        match first_unfocused(ws.drop_last()) {
            Some(j) => Some(j),
            None => if !spec_is_focused(ws.last().1.open_state) { Some(ws.len() - 1) } else { None },
        }
    }
}

/// The window an item click acts on: its first unfocused window, else its
/// first window.
pub open spec fn chosen_window(iv: ItemView) -> Option<usize> {
    match first_unfocused(iv.windows) {
        Some(j) => Some(iv.windows[j].1.id),
        None => if iv.windows.len() > 0 { Some(iv.windows[0].1.id) } else { None },
    }
}

/// The first item holding a window with key `id`.
pub open spec fn window_owner(items: Seq<(Seq<char>, ItemView)>, id: usize) -> Option<int>
    decreases items.len(),
{
    if items.len() == 0 {
        None
    } else {
        match window_owner(items.drop_last(), id) {
            Some(i) => Some(i),
            None => if key_position(items.last().1.windows, id) is Some { Some(items.len() - 1) } else { None },
        }
    }
}

/// The window a click asks for, before it is looked up.
pub open spec fn requested_window(items: IndexMap<String, Item>, event: ItemEvent) -> Option<usize> {
    match event {
        ItemEvent::FocusItem(a) | ItemEvent::MinimizeItem(a) => match key_position(item_entries(items), a@) {
            Some(i) => chosen_window(items_view(items)[i].1),
            None => None,
        },
        ItemEvent::FocusWindow(id) => Some(id),
        ItemEvent::OpenItem(_) => None,
    }
}

/// What a click asks of the window manager: focus the requested window, or
/// minimise it when the click asked to minimise and minimising is on.
pub open spec fn spec_item_event_action(items: IndexMap<String, Item>, event: ItemEvent, minimize_focused: bool) -> Option<WindowAction> {
    match requested_window(items, event) {
        None => None,
        Some(id) => match window_owner(items_view(items), id) {
            None => None,
            Some(i) => {
                let iv = items_view(items)[i].1;
                let w = iv.windows[key_position(iv.windows, id).unwrap()].1;
                if (event is MinimizeItem) && minimize_focused {
                    Some(WindowAction::Minimize(w.id))
                } else {
                    Some(WindowAction::Focus(w.id))
                }
            },
        },
    }
}

fn choose_window(item: &Item) -> (r: Option<usize>)
    ensures
        r == chosen_window(item@),
{
    let n = windows_len(&item.windows);
    let ghost ws = windows_view(item.windows);
    let mut j: usize = 0;
    while j < n
        invariant
            j <= n,
            n == window_entries(item.windows).len(),
            ws == windows_view(item.windows),
            first_unfocused(ws.take(j as int)) is None,
        decreases n - j,
    {
        let (_, w) = windows_get_index(&item.windows, j);
        proof {
            assert(ws.take(j + 1).drop_last() =~= ws.take(j as int));
            assert(ws[j as int].1 == w@);
        }
        if !w.open_state.is_focused() {
            proof {
                lemma_first_prefix(ws, j as int + 1);
            }
            return Some(w.id);
        }
        j = j + 1;
    }
    assert(ws.take(n as int) =~= ws);
    if n > 0 {
        let (_, w) = windows_get_index(&item.windows, 0);
        Some(w.id)
    } else {
        None
    }
}

proof fn lemma_first_prefix(ws: Seq<(usize, WindowView)>, k: int)
    requires
        0 < k <= ws.len(),
        first_unfocused(ws.take(k)) is Some,
    ensures
        first_unfocused(ws) == first_unfocused(ws.take(k)),
    decreases ws.len() - k,
{
    if k < ws.len() {
        assert(ws.take(k + 1).drop_last() =~= ws.take(k));
        lemma_first_prefix(ws, k + 1);
    } else {
        assert(ws.take(k) =~= ws);
    }
}

proof fn lemma_owner_prefix(items: Seq<(Seq<char>, ItemView)>, k: int, id: usize)
    requires
        0 < k <= items.len(),
        window_owner(items.take(k), id) is Some,
    ensures
        window_owner(items, id) == window_owner(items.take(k), id),
    decreases items.len() - k,
{
    if k < items.len() {
        assert(items.take(k + 1).drop_last() =~= items.take(k));
        lemma_owner_prefix(items, k + 1, id);
    } else {
        assert(items.take(k) =~= items);
    }
}

/// Decides what a click asks of the window manager.  Opening an
/// application is not decided here.
pub fn item_event_action(items: &IndexMap<String, Item>, event: &ItemEvent, minimize_focused: bool) -> (r: Option<WindowAction>)
    ensures
        r == spec_item_event_action(*items, *event, minimize_focused),
{
    let ghost iv = items_view(*items);
    let requested = match event {
        ItemEvent::FocusItem(a) | ItemEvent::MinimizeItem(a) => match items_index_of(items, a.as_str()) {
            Some(i) => {
                proof {
                    lemma_key_position_bounds(item_entries(*items), a@);
                }
                let (_, item) = items_get_index(items, i);
                choose_window(item)
            },
            None => None,
        },
        ItemEvent::FocusWindow(id) => Some(*id),
        ItemEvent::OpenItem(_) => None,
    };
    let id = match requested {
        Some(id) => id,
        None => {
            return None;
        },
    };
    let n = items_len(items);
    let mut i: usize = 0;
    while i < n
        invariant
            i <= n,
            n == item_entries(*items).len(),
            iv == items_view(*items),
            window_owner(iv.take(i as int), id) is None,
            requested_window(*items, *event) == Some(id),
        decreases n - i,
    {
        let (_, item) = items_get_index(items, i);
        proof {
            assert(iv.take(i + 1).drop_last() =~= iv.take(i as int));
            assert(iv[i as int].1 == item@);
            lemma_key_position_views(window_entries(item.windows), id);
        }
        if let Some(j) = windows_index_of(&item.windows, id) {
            proof {
                lemma_owner_prefix(iv, i as int + 1, id);
                lemma_key_position_bounds(window_entries(item.windows), id);
            }
            let (_, w) = windows_get_index(&item.windows, j);
            proof {
                assert(window_owner(iv, id) == Some(i as int));
                assert(key_position(iv[i as int].1.windows, id) == Some(j as int));
                assert(iv[i as int].1.windows[j as int].1 == w@);
            }
            let minimize = match event {
                ItemEvent::MinimizeItem(_) => true,
                _ => false,
            };
            if minimize && minimize_focused {
                return Some(WindowAction::Minimize(w.id));
            } else {
                return Some(WindowAction::Focus(w.id));
            }
        }
        i = i + 1;
    }
    assert(iv.take(n as int) =~= iv);
    None
}

} // verus!

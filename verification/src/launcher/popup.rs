//! The launcher's popup: for each application, its windows' titles by
//! window id, and the list shown when its button is hovered.
use vstd::prelude::*;

use indexmap::IndexMap;

use super::controller::LauncherUpdate;
use super::item::{Item, windows_view};
use super::maps::{windows_get_index, windows_len};
use crate::menu::maps::{key_pos, lemma_key_pos, view_insert};

verus! {

/// The (window id, title) pairs of an application, in order.
pub uninterp spec fn title_entries(m: IndexMap<usize, String>) -> Seq<(usize, Seq<char>)>;

/// The (application id, titles) pairs of the popup, in order.
pub uninterp spec fn popup_entries(m: IndexMap<String, IndexMap<usize, String>>) -> Seq<(Seq<char>, Seq<(usize, Seq<char>)>)>;

/// The position of the first entry with id `k`.
pub open spec fn id_pos(e: Seq<(usize, Seq<char>)>, k: usize) -> Option<int>
    decreases e.len(),
{
    if e.len() == 0 {
        None
    } else {
        match id_pos(e.drop_last(), k) {
            Some(i) => Some(i),
            None => if e.last().0 == k { Some(e.len() - 1) } else { None },
        }
    }
}

/// `e` with title `t` under id `k`: in its place when present, else last.
pub open spec fn titles_inserted(e: Seq<(usize, Seq<char>)>, k: usize, t: Seq<char>) -> Seq<(usize, Seq<char>)> {
    match id_pos(e, k) {
        Some(i) => e.update(i, (k, t)),
        None => e.push((k, t)),
    }
}

/// `e` without id `k`, the others keeping their order.
pub open spec fn titles_removed(e: Seq<(usize, Seq<char>)>, k: usize) -> Seq<(usize, Seq<char>)> {
    match id_pos(e, k) {
        Some(i) => e.remove(i),
        None => e,
    }
}

/// `IndexMap::new` for titles.
#[verifier::external_body]
fn titles_new() -> (r: IndexMap<usize, String>)
    ensures
        title_entries(r) == Seq::<(usize, Seq<char>)>::empty(),
{
    IndexMap::new()
}

/// `IndexMap::len` for titles.
#[verifier::external_body]
fn titles_len(m: &IndexMap<usize, String>) -> (r: usize)
    ensures
        r == title_entries(*m).len(),
{
    m.len()
}

/// `IndexMap::get_index` for titles, at a position that exists.
#[verifier::external_body]
fn titles_get_index(m: &IndexMap<usize, String>, i: usize) -> (r: (&usize, &String))
    requires
        i < title_entries(*m).len(),
    ensures
        (*r.0, r.1@) == title_entries(*m)[i as int],
{
    m.get_index(i).unwrap()
}

/// `IndexMap::get_index_of` for titles.
#[verifier::external_body]
fn titles_index_of(m: &IndexMap<usize, String>, k: usize) -> (r: Option<usize>)
    ensures
        match r {
            Some(i) => id_pos(title_entries(*m), k) == Some(i as int),
            None => id_pos(title_entries(*m), k) is None,
        },
{
    m.get_index_of(&k)
}

/// `IndexMap::insert` for titles.
#[verifier::external_body]
fn titles_insert(m: &mut IndexMap<usize, String>, k: usize, t: String)
    ensures
        title_entries(*final(m)) == titles_inserted(title_entries(*old(m)), k, t@),
{
    m.insert(k, t);
}

/// `IndexMap::shift_remove` for titles.
#[verifier::external_body]
fn titles_shift_remove(m: &mut IndexMap<usize, String>, k: usize)
    ensures
        title_entries(*final(m)) == titles_removed(title_entries(*old(m)), k),
{
    m.shift_remove(&k);
}

/// `IndexMap::new` for the popup.
#[verifier::external_body]
fn popup_new() -> (r: IndexMap<String, IndexMap<usize, String>>)
    ensures
        popup_entries(r) == Seq::<(Seq<char>, Seq<(usize, Seq<char>)>)>::empty(),
{
    IndexMap::new()
}

/// `IndexMap::get_index_of` for the popup.
#[verifier::external_body]
fn popup_index_of(m: &IndexMap<String, IndexMap<usize, String>>, k: &str) -> (r: Option<usize>)
    ensures
        match r {
            Some(i) => key_pos(popup_entries(*m), k@) == Some(i as int),
            None => key_pos(popup_entries(*m), k@) is None,
        },
{
    m.get_index_of(k)
}

/// `IndexMap::get_index` for the popup, the titles only, at a position
/// that exists.
#[verifier::external_body]
fn popup_get_index(m: &IndexMap<String, IndexMap<usize, String>>, i: usize) -> (r: &IndexMap<usize, String>)
    requires
        i < popup_entries(*m).len(),
    ensures
        title_entries(*r) == popup_entries(*m)[i as int].1,
{
    m.get_index(i).unwrap().1
}

/// `IndexMap::get_index_mut` for the popup, at a position that exists.
#[verifier::external_body]
fn popup_get_index_mut(m: &mut IndexMap<String, IndexMap<usize, String>>, i: usize) -> (r: &mut IndexMap<usize, String>)
    requires
        i < popup_entries(*old(m)).len(),
    ensures
        title_entries(*r) == popup_entries(*old(m))[i as int].1,
        popup_entries(*final(m)) == popup_entries(*old(m)).update(
            i as int,
            (popup_entries(*old(m))[i as int].0, title_entries(*final(r))),
        ),
{
    m.get_index_mut(i).unwrap().1
}

/// `IndexMap::insert` for the popup.
#[verifier::external_body]
fn popup_insert(m: &mut IndexMap<String, IndexMap<usize, String>>, k: String, v: IndexMap<usize, String>)
    ensures
        popup_entries(*final(m)) == view_insert(popup_entries(*old(m)), k@, title_entries(v)),
{
    m.insert(k, v);
}

/// The titles of windows, by window id, each put in under its id in order.
pub open spec fn titles_of(ws: Seq<(usize, super::item::WindowView)>) -> Seq<(usize, Seq<char>)>
    decreases ws.len(),
{
    if ws.len() == 0 {
        seq![]
    } else {
        titles_inserted(titles_of(ws.drop_last()), ws.last().0, ws.last().1.name)
    }
}

/// The titles of an item's windows, by window id, in order.
pub open spec fn item_titles(item: Item) -> Seq<(usize, Seq<char>)> {
    titles_of(windows_view(item.windows))
}

/// The popup after an update: a new item brings its windows' titles, a
/// new window adds its title, a removed window goes, a title changes in
/// place; the rest changes nothing.
pub open spec fn spec_popup_apply(
    e: Seq<(Seq<char>, Seq<(usize, Seq<char>)>)>,
    u: LauncherUpdate,
) -> Seq<(Seq<char>, Seq<(usize, Seq<char>)>)> {
    match u {
        LauncherUpdate::AddItem(item) => view_insert(e, item.app_id@, item_titles(item)),
        LauncherUpdate::AddWindow(app_id, w) => match key_pos(e, app_id@) {
            Some(i) => e.update(i, (e[i].0, titles_inserted(e[i].1, w.id, w.name@))),
            None => e,
        },
        LauncherUpdate::RemoveWindow(app_id, id) => match key_pos(e, app_id@) {
            Some(i) => e.update(i, (e[i].0, titles_removed(e[i].1, id))),
            None => e,
        },
        LauncherUpdate::Title(app_id, id, t) => match key_pos(e, app_id@) {
            Some(i) => match id_pos(e[i].1, id) {
                Some(_) => e.update(i, (e[i].0, titles_inserted(e[i].1, id, t@))),
                None => e,
            },
            None => e,
        },
        _ => e,
    }
}

/// The launcher's popup: the windows of each application.
pub struct LauncherPopup {
    pub windows: IndexMap<String, IndexMap<usize, String>>,
}

impl LauncherPopup {
    /// No applications.
    pub fn new() -> (r: LauncherPopup)
        ensures
            popup_entries(r.windows).len() == 0,
    {
        LauncherPopup { windows: popup_new() }
    }

    /// Applies an update from the controller.
    pub fn apply(&mut self, u: &LauncherUpdate)
        ensures
            popup_entries(final(self).windows) == spec_popup_apply(popup_entries(old(self).windows), *u),
    {
        let ghost e = popup_entries(self.windows);
        match u {
            LauncherUpdate::AddItem(item) => {
                let titles = item_window_titles(item);
                popup_insert(&mut self.windows, item.app_id.clone(), titles);
            },
            LauncherUpdate::AddWindow(app_id, w) => {
                if let Some(i) = popup_index_of(&self.windows, app_id.as_str()) {
                    proof {
                        lemma_key_pos(e, app_id@);
                    }
                    let titles = popup_get_index_mut(&mut self.windows, i);
                    titles_insert(titles, w.id, w.name.clone());
                }
            },
            LauncherUpdate::RemoveWindow(app_id, id) => {
                if let Some(i) = popup_index_of(&self.windows, app_id.as_str()) {
                    proof {
                        lemma_key_pos(e, app_id@);
                    }
                    let titles = popup_get_index_mut(&mut self.windows, i);
                    titles_shift_remove(titles, *id);
                }
            },
            LauncherUpdate::Title(app_id, id, t) => {
                if let Some(i) = popup_index_of(&self.windows, app_id.as_str()) {
                    proof {
                        lemma_key_pos(e, app_id@);
                    }
                    let titles = popup_get_index_mut(&mut self.windows, i);
                    if titles_index_of(titles, *id).is_some() {
                        titles_insert(titles, *id, t.clone());
                    }
                }
            },
            _ => {},
        }
    }

    /// The windows shown when an application's button is hovered: its
    /// (id, title) pairs in order, or none for an unknown application.
    pub fn hover(&self, app_id: &str) -> (r: Option<Vec<(usize, String)>>)
        ensures
            match key_pos(popup_entries(self.windows), app_id@) {
                Some(i) => r matches Some(v) && v@.map_values(|p: (usize, String)| (p.0, p.1@))
                    == popup_entries(self.windows)[i].1,
                None => r is None,
            },
    {
        match popup_index_of(&self.windows, app_id) {
            Some(i) => {
                proof {
                    lemma_key_pos(popup_entries(self.windows), app_id@);
                }
                let titles = popup_get_index(&self.windows, i);
                let n = titles_len(titles);
                let mut out: Vec<(usize, String)> = Vec::new();
                let mut k: usize = 0;
                while k < n
                    invariant
                        k <= n,
                        n == title_entries(*titles).len(),
                        out@.map_values(|p: (usize, String)| (p.0, p.1@)) == title_entries(*titles).take(k as int),
                    decreases n - k,
                {
                    let (id, t) = titles_get_index(titles, k);
                    let ghost before = out@;
                    let pair = (*id, t.clone());
                    out.push(pair);
                    proof {
                        assert(out@ =~= before.push(pair));
                        assert(out@.map_values(|p: (usize, String)| (p.0, p.1@)) =~= before.map_values(
                            |p: (usize, String)| (p.0, p.1@),
                        ).push((pair.0, pair.1@)));
                        assert(title_entries(*titles).take(k + 1) =~= title_entries(*titles).take(k as int).push(
                            title_entries(*titles)[k as int],
                        ));
                    }
                    k = k + 1;
                }
                assert(title_entries(*titles).take(n as int) =~= title_entries(*titles));
                Some(out)
            },
            None => None,
        }
    }
}

/// The titles of an item's windows, by window id.
fn item_window_titles(item: &Item) -> (r: IndexMap<usize, String>)
    ensures
        title_entries(r) == item_titles(*item),
{
    let n = windows_len(&item.windows);
    let mut titles = titles_new();
    let ghost wv = windows_view(item.windows);
    let mut k: usize = 0;
    while k < n
        invariant
            k <= n,
            n == wv.len(),
            wv == windows_view(item.windows),
            title_entries(titles) == titles_of(wv.take(k as int)),
        decreases n - k,
    {
        let (id, w) = windows_get_index(&item.windows, k);
        assert(wv[k as int].0 == *id && wv[k as int].1.name == w.name@);
        assert(wv.take(k + 1).drop_last() =~= wv.take(k as int));
        titles_insert(&mut titles, *id, w.name.clone());
        k = k + 1;
    }
    assert(wv.take(n as int) =~= wv);
    titles
}

} // verus!

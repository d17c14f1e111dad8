//! The ordered maps (`indexmap::IndexMap`) of the menu: categories to
//! section labels, labels to menu entries, and a section's applications by
//! label, with the behaviour of the methods used here.
use vstd::prelude::*;

use indexmap::IndexMap;

use super::order::{keys_sorted, sorted_insert};
use super::{AppView, EntryView, MenuApplication, MenuEntry, entry_view, strings_view};

verus! {

/// The (label, application) pairs of a section, in map order.
pub uninterp spec fn application_entries(m: IndexMap<String, MenuApplication>) -> Seq<(Seq<char>, AppView)>;

/// The (category, section labels) pairs of the category index, in map
/// order.
pub uninterp spec fn category_entries(m: IndexMap<String, Vec<String>>) -> Seq<(Seq<char>, Seq<Seq<char>>)>;

/// The (label, entry) pairs of a part of the main menu, in map order.
pub uninterp spec fn menu_entries(m: IndexMap<String, MenuEntry>) -> Seq<(Seq<char>, EntryView)>;

/// The position of the first entry with key `k`.
pub open spec fn key_pos<X>(e: Seq<(Seq<char>, X)>, k: Seq<char>) -> Option<int>
    decreases e.len(),
{
    if e.len() == 0 {
        None
    } else {
        match key_pos(e.drop_last(), k) {
            Some(i) => Some(i),
            None => if e.last().0 == k { Some(e.len() - 1) } else { None },
        }
    }
}

/// `e` with `v` put in under `k`: in the place of `k` when it is present,
/// else last (`IndexMap::insert`).
pub open spec fn view_insert<X>(e: Seq<(Seq<char>, X)>, k: Seq<char>, v: X) -> Seq<(Seq<char>, X)> {
    match key_pos(e, k) {
        Some(i) => e.update(i, (e[i].0, v)),
        None => e.push((k, v)),
    }
}

/// The position found for a key holds that key, and no earlier entry does.
pub proof fn lemma_key_pos<X>(e: Seq<(Seq<char>, X)>, k: Seq<char>)
    ensures
        match key_pos(e, k) {
            Some(i) => 0 <= i < e.len() && e[i].0 == k && forall|j: int| 0 <= j < i ==> e[j].0 != k,
            None => forall|j: int| 0 <= j < e.len() ==> e[j].0 != k,
        },
    decreases e.len(),
{
    if e.len() > 0 {
        lemma_key_pos(e.drop_last(), k);
        assert forall|j: int| 0 <= j < e.len() - 1 implies e.drop_last()[j] == e[j] by {}
    }
}

/// Where the keys agree, so do the positions found.
pub proof fn lemma_key_pos_same_keys<X, Y>(e: Seq<(Seq<char>, X)>, f: Seq<(Seq<char>, Y)>, k: Seq<char>)
    requires
        e.len() == f.len(),
        forall|j: int| 0 <= j < e.len() ==> #[trigger] e[j].0 == f[j].0,
    ensures
        key_pos(e, k) == key_pos(f, k),
    decreases e.len(),
{
    if e.len() > 0 {
        assert(e.last().0 == f.last().0) by {
            assert(e[e.len() - 1].0 == f[f.len() - 1].0);
        }
        assert forall|j: int| 0 <= j < e.len() - 1 implies #[trigger] e.drop_last()[j].0 == f.drop_last()[j].0 by {
            assert(e[j].0 == f[j].0);
        }
        lemma_key_pos_same_keys(e.drop_last(), f.drop_last(), k);
    }
}

/// `IndexMap::new` for a section's applications.
#[verifier::external_body]
pub(crate) fn apps_new() -> (r: IndexMap<String, MenuApplication>)
    ensures
        application_entries(r) == Seq::<(Seq<char>, AppView)>::empty(),
{
    IndexMap::new()
}

/// `IndexMap::insert_sorted` for a section's applications.  The crate
/// states where the pair goes only when the keys are sorted: then the
/// value is replaced where the key is found, else the pair is inserted at
/// its sorted position.
#[verifier::external_body]
pub(crate) fn apps_insert_sorted(m: &mut IndexMap<String, MenuApplication>, k: String, v: MenuApplication)
    ensures
        keys_sorted(application_entries(*old(m))) ==> application_entries(*final(m)) == sorted_insert(
            application_entries(*old(m)),
            k@,
            v@,
        ),
{
    m.insert_sorted(k, v);
}

/// `IndexMap::new` for the category index.
#[verifier::external_body]
pub(crate) fn categories_new() -> (r: IndexMap<String, Vec<String>>)
    ensures
        category_entries(r) == Seq::<(Seq<char>, Seq<Seq<char>>)>::empty(),
{
    IndexMap::new()
}

/// `IndexMap::get_index_of` for the category index.
#[verifier::external_body]
pub(crate) fn categories_index_of(m: &IndexMap<String, Vec<String>>, k: &str) -> (r: Option<usize>)
    ensures
        match r {
            Some(i) => key_pos(category_entries(*m), k@) == Some(i as int),
            None => key_pos(category_entries(*m), k@) is None,
        },
{
    m.get_index_of(k)
}

/// `IndexMap::get_index` for the category index, at a position that
/// exists.
#[verifier::external_body]
pub(crate) fn categories_get_index(m: &IndexMap<String, Vec<String>>, i: usize) -> (r: (&String, &Vec<String>))
    requires
        i < category_entries(*m).len(),
    ensures
        (r.0@, strings_view(r.1@)) == category_entries(*m)[i as int],
{
    m.get_index(i).unwrap()
}

/// `IndexMap::get_index_mut` for the category index, at a position that
/// exists.
#[verifier::external_body]
pub(crate) fn categories_get_index_mut(m: &mut IndexMap<String, Vec<String>>, i: usize) -> (r: &mut Vec<String>)
    requires
        i < category_entries(*old(m)).len(),
    ensures
        strings_view(r@) == category_entries(*old(m))[i as int].1,
        category_entries(*final(m)) == category_entries(*old(m)).update(
            i as int,
            (category_entries(*old(m))[i as int].0, strings_view(final(r)@)),
        ),
{
    m.get_index_mut(i).unwrap().1
}

/// `IndexMap::insert` for the category index.
#[verifier::external_body]
pub(crate) fn categories_insert(m: &mut IndexMap<String, Vec<String>>, k: String, v: Vec<String>)
    ensures
        category_entries(*final(m)) == view_insert(category_entries(*old(m)), k@, strings_view(v@)),
{
    m.insert(k, v);
}

/// `IndexMap::new` for menu entries.
#[verifier::external_body]
pub(crate) fn entries_new() -> (r: IndexMap<String, MenuEntry>)
    ensures
        menu_entries(r) == Seq::<(Seq<char>, EntryView)>::empty(),
{
    IndexMap::new()
}

/// `IndexMap::len` for menu entries.
#[verifier::external_body]
pub(crate) fn entries_len(m: &IndexMap<String, MenuEntry>) -> (r: usize)
    ensures
        r == menu_entries(*m).len(),
{
    m.len()
}

/// `IndexMap::get_index_of` for menu entries.
#[verifier::external_body]
pub(crate) fn entries_index_of(m: &IndexMap<String, MenuEntry>, k: &str) -> (r: Option<usize>)
    ensures
        match r {
            Some(i) => key_pos(menu_entries(*m), k@) == Some(i as int),
            None => key_pos(menu_entries(*m), k@) is None,
        },
{
    m.get_index_of(k)
}

/// `IndexMap::get_index` for menu entries, at a position that exists.
#[verifier::external_body]
pub(crate) fn entries_get_index(m: &IndexMap<String, MenuEntry>, i: usize) -> (r: (&String, &MenuEntry))
    requires
        i < menu_entries(*m).len(),
    ensures
        (r.0@, entry_view(*r.1)) == menu_entries(*m)[i as int],
{
    m.get_index(i).unwrap()
}

/// `IndexMap::get_index_mut` for menu entries, at a position that exists.
#[verifier::external_body]
pub(crate) fn entries_get_index_mut(m: &mut IndexMap<String, MenuEntry>, i: usize) -> (r: &mut MenuEntry)
    requires
        i < menu_entries(*old(m)).len(),
    ensures
        entry_view(*r) == menu_entries(*old(m))[i as int].1,
        menu_entries(*final(m)) == menu_entries(*old(m)).update(
            i as int,
            (menu_entries(*old(m))[i as int].0, entry_view(*final(r))),
        ),
{
    m.get_index_mut(i).unwrap().1
}

/// `IndexMap::insert` for menu entries.
#[verifier::external_body]
pub(crate) fn entries_insert(m: &mut IndexMap<String, MenuEntry>, k: String, v: MenuEntry)
    ensures
        menu_entries(*final(m)) == view_insert(menu_entries(*old(m)), k@, entry_view(v)),
{
    m.insert(k, v);
}

} // verus!

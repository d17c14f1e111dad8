//! The ordered maps (`indexmap::IndexMap`) that hold a launcher's items and
//! an item's windows, with the behaviour of the methods used here.
use vstd::prelude::*;

use indexmap::IndexMap;

use super::item::{Item, Window, windows_view};

verus! {

#[verifier::external_type_specification]
#[verifier::external_body]
#[verifier::reject_recursive_types(K)]
#[verifier::reject_recursive_types(V)]
#[verifier::reject_recursive_types(S)]
pub struct ExIndexMap<K, V, S>(IndexMap<K, V, S>);

/// The key-value pairs of a window map, in insertion order.
pub uninterp spec fn window_entries(m: IndexMap<usize, Window>) -> Seq<(usize, Window)>;

/// The key-value pairs of an item map, in insertion order.
pub uninterp spec fn item_entries(m: IndexMap<String, Item>) -> Seq<(String, Item)>;

/// The position of the first entry whose key is `k`.
pub open spec fn key_position<K: View, V>(e: Seq<(K, V)>, k: K::V) -> Option<int>
    decreases e.len(),
{
    if e.len() == 0 {
        None
    } else {
        match key_position(e.drop_last(), k) {
            Some(i) => Some(i),
            None => if e.last().0@ == k { Some(e.len() - 1) } else { None },
        }
    }
}

/// The entries of `e` with value `v` put in under key `k`: in the place of
/// `k` (keeping the stored key) when it is present, else last.
pub open spec fn entries_inserted<K: View, V>(e: Seq<(K, V)>, k: K, v: V) -> Seq<(K, V)> {
    match key_position(e, k@) {
        Some(i) => e.update(i, (e[i].0, v)),
        None => e.push((k, v)),
    }
}

/// The entries of `e` without key `k`, the others keeping their order.
pub open spec fn entries_removed<K: View, V>(e: Seq<(K, V)>, k: K::V) -> Seq<(K, V)> {
    match key_position(e, k) {
        Some(i) => e.remove(i),
        None => e,
    }
}

/// `IndexMap::new` for windows.
#[verifier::external_body]
pub(crate) fn windows_new() -> (r: IndexMap<usize, Window>)
    ensures
        window_entries(r) == Seq::<(usize, Window)>::empty(),
{
    IndexMap::new()
}

/// `IndexMap::len` for windows.
#[verifier::external_body]
pub(crate) fn windows_len(m: &IndexMap<usize, Window>) -> (r: usize)
    ensures
        r == window_entries(*m).len(),
{
    m.len()
}

/// `IndexMap::get_index` for windows, at a position that exists.
#[verifier::external_body]
pub(crate) fn windows_get_index(m: &IndexMap<usize, Window>, i: usize) -> (r: (&usize, &Window))
    requires
        i < window_entries(*m).len(),
    ensures
        (*r.0, *r.1) == window_entries(*m)[i as int],
{
    m.get_index(i).unwrap()
}

/// `IndexMap::get_index_mut` for windows, at a position that exists.
#[verifier::external_body]
pub(crate) fn windows_get_index_mut(m: &mut IndexMap<usize, Window>, i: usize) -> (r: &mut Window)
    requires
        i < window_entries(*old(m)).len(),
    ensures
        *r == window_entries(*old(m))[i as int].1,
        window_entries(*final(m)) == window_entries(*old(m)).update(
            i as int,
            (window_entries(*old(m))[i as int].0, *final(r)),
        ),
{
    m.get_index_mut(i).unwrap().1
}

/// `IndexMap::clone` for windows: each window is copied with
/// `Window::clone`, whose copies show the same values.
#[verifier::external_body]
pub(crate) fn windows_clone(m: &IndexMap<usize, Window>) -> (r: IndexMap<usize, Window>)
    ensures
        windows_view(r) == windows_view(*m),
{
    m.clone()
}

/// `IndexMap::get_index_of` for windows.
#[verifier::external_body]
pub(crate) fn windows_index_of(m: &IndexMap<usize, Window>, k: usize) -> (r: Option<usize>)
    ensures
        match r {
            Some(i) => key_position(window_entries(*m), k@) == Some(i as int),
            None => key_position(window_entries(*m), k@) is None,
        },
{
    m.get_index_of(&k)
}

/// `IndexMap::insert` for windows.
#[verifier::external_body]
pub(crate) fn windows_insert(m: &mut IndexMap<usize, Window>, k: usize, v: Window)
    ensures
        window_entries(*final(m)) == entries_inserted(window_entries(*old(m)), k, v),
{
    m.insert(k, v);
}

/// `IndexMap::shift_remove` for windows.
#[verifier::external_body]
pub(crate) fn windows_shift_remove(m: &mut IndexMap<usize, Window>, k: usize)
    ensures
        window_entries(*final(m)) == entries_removed(window_entries(*old(m)), k@),
{
    m.shift_remove(&k);
}

/// `IndexMap::new` for items.
#[verifier::external_body]
pub(crate) fn items_new() -> (r: IndexMap<String, Item>)
    ensures
        item_entries(r) == Seq::<(String, Item)>::empty(),
{
    IndexMap::new()
}

/// `IndexMap::len` for items.
#[verifier::external_body]
pub(crate) fn items_len(m: &IndexMap<String, Item>) -> (r: usize)
    ensures
        r == item_entries(*m).len(),
{
    m.len()
}

/// `IndexMap::get_index` for items, at a position that exists.
#[verifier::external_body]
pub(crate) fn items_get_index(m: &IndexMap<String, Item>, i: usize) -> (r: (&String, &Item))
    requires
        i < item_entries(*m).len(),
    ensures
        (*r.0, *r.1) == item_entries(*m)[i as int],
{
    m.get_index(i).unwrap()
}

/// `IndexMap::get_index_mut` for items, at a position that exists.
#[verifier::external_body]
pub(crate) fn items_get_index_mut(m: &mut IndexMap<String, Item>, i: usize) -> (r: &mut Item)
    requires
        i < item_entries(*old(m)).len(),
    ensures
        *r == item_entries(*old(m))[i as int].1,
        item_entries(*final(m)) == item_entries(*old(m)).update(
            i as int,
            (item_entries(*old(m))[i as int].0, *final(r)),
        ),
{
    m.get_index_mut(i).unwrap().1
}

/// `IndexMap::get_index_of` for items, looked up by the key's text.
#[verifier::external_body]
pub(crate) fn items_index_of(m: &IndexMap<String, Item>, k: &str) -> (r: Option<usize>)
    ensures
        match r {
            Some(i) => key_position(item_entries(*m), k@) == Some(i as int),
            None => key_position(item_entries(*m), k@) is None,
        },
{
    m.get_index_of(k)
}

/// `IndexMap::insert` for items.
#[verifier::external_body]
pub(crate) fn items_insert(m: &mut IndexMap<String, Item>, k: String, v: Item)
    ensures
        item_entries(*final(m)) == entries_inserted(item_entries(*old(m)), k, v),
{
    m.insert(k, v);
}

/// `IndexMap::shift_remove` for items, by the key's text.
#[verifier::external_body]
pub(crate) fn items_shift_remove(m: &mut IndexMap<String, Item>, k: &str)
    ensures
        item_entries(*final(m)) == entries_removed(item_entries(*old(m)), k@),
{
    m.shift_remove(k);
}

} // verus!

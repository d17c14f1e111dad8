//! A launcher item: an application with its open windows.
use vstd::prelude::*;

use indexmap::IndexMap;

use super::maps::{
    entries_inserted, entries_removed, key_position, window_entries, windows_get_index,
    windows_get_index_mut, windows_index_of, windows_insert, windows_len, windows_new,
    windows_shift_remove,
};
use super::open_state::{merge2, merged, OpenState};
use super::ToplevelInfo;

verus! {

/// Image data of a window preview.
#[derive(Debug)]
pub struct Buffer(pub Vec<u8>);

/// One open window of an application.
#[derive(Debug)]
pub struct Window {
    pub id: usize,
    pub name: String,
    pub open_state: OpenState,
    pub preview_buffer: Option<Buffer>,
}

/// An application in the launcher.
#[derive(Debug)]
pub struct Item {
    pub app_id: String,
    pub favorite: bool,
    pub open_state: OpenState,
    pub windows: IndexMap<usize, Window>,
    pub name: String,
}

/// A window as plain values.
pub struct WindowView {
    pub id: usize,
    pub name: Seq<char>,
    pub open_state: OpenState,
    pub preview: Option<Seq<u8>>,
}

/// The bytes of an optional preview image.
pub open spec fn buffer_view(b: Option<Buffer>) -> Option<Seq<u8>> {
    match b {
        Some(b) => Some(b.0@),
        None => None,
    }
}

impl View for Window {
    type V = WindowView;

    open spec fn view(&self) -> WindowView {
        WindowView {
            id: self.id,
            name: self.name@,
            open_state: self.open_state,
            preview: buffer_view(self.preview_buffer),
        }
    }
}

/// An item as plain values.
pub struct ItemView {
    pub app_id: Seq<char>,
    pub favorite: bool,
    pub open_state: OpenState,
    pub windows: Seq<(usize, WindowView)>,
    pub name: Seq<char>,
}

impl View for Item {
    type V = ItemView;

    open spec fn view(&self) -> ItemView {
        ItemView {
            app_id: self.app_id@,
            favorite: self.favorite,
            open_state: self.open_state,
            windows: windows_view(self.windows),
            name: self.name@,
        }
    }
}

/// The open states of a list of windows.
pub open spec fn view_states(w: Seq<(usize, WindowView)>) -> Seq<OpenState> {
    w.map_values(|e: (usize, WindowView)| e.1.open_state)
}

/// The open states of a map's windows are those of its windows' views.
pub proof fn lemma_window_states_view(m: IndexMap<usize, Window>)
    ensures
        window_states(m) == view_states(windows_view(m)),
{
    assert(window_states(m) =~= view_states(windows_view(m)));
}

/// The windows of a map, as plain values, in order.
pub open spec fn windows_view(m: IndexMap<usize, Window>) -> Seq<(usize, WindowView)> {
    window_entries(m).map_values(|e: (usize, Window)| (e.0, e.1@))
}

/// The open states of the windows of a map, in order.
pub open spec fn window_states(m: IndexMap<usize, Window>) -> Seq<OpenState> {
    window_entries(m).map_values(|e: (usize, Window)| e.1.open_state)
}

/// The window a toplevel becomes.
pub open spec fn window_of(info: ToplevelInfo) -> WindowView {
    WindowView {
        id: info.id,
        name: info.title@,
        open_state: OpenState::Open { focused: info.focused },
        preview: None,
    }
}

/// The item's open state is the merged state of its windows.
pub open spec fn state_is_merged(item: Item) -> bool {
    item.open_state == merged(window_states(item.windows))
}

proof fn lemma_view_inserted(e: Seq<(usize, Window)>, k: usize, v: Window)
    ensures
        entries_inserted(e, k, v).map_values(|e: (usize, Window)| (e.0, e.1@)) == entries_inserted(
            e.map_values(|e: (usize, Window)| (e.0, e.1@)),
            k,
            v@,
        ),
        entries_inserted(e, k, v).map_values(|e: (usize, Window)| e.1.open_state) == entries_inserted(
            e.map_values(|e: (usize, Window)| (e.0, e.1.open_state)),
            k,
            v.open_state,
        ).map_values(|e: (usize, OpenState)| e.1),
{
    lemma_key_position_views(e, k);
    let a = e.map_values(|e: (usize, Window)| (e.0, e.1@));
    let b = e.map_values(|e: (usize, Window)| (e.0, e.1.open_state));
    match key_position(e, k) {
        Some(i) => {
            assert(entries_inserted(e, k, v).map_values(|e: (usize, Window)| (e.0, e.1@)) =~= entries_inserted(a, k, v@));
            assert(entries_inserted(e, k, v).map_values(|e: (usize, Window)| e.1.open_state) =~= entries_inserted(b, k, v.open_state).map_values(|e: (usize, OpenState)| e.1));
        },
        None => {
            assert(entries_inserted(e, k, v).map_values(|e: (usize, Window)| (e.0, e.1@)) =~= entries_inserted(a, k, v@));
            assert(entries_inserted(e, k, v).map_values(|e: (usize, Window)| e.1.open_state) =~= entries_inserted(b, k, v.open_state).map_values(|e: (usize, OpenState)| e.1));
        },
    }
}

pub proof fn lemma_key_position_views(e: Seq<(usize, Window)>, k: usize)
    ensures
        key_position(e.map_values(|e: (usize, Window)| (e.0, e.1@)), k) == key_position(e, k),
        key_position(e.map_values(|e: (usize, Window)| (e.0, e.1.open_state)), k) == key_position(e, k),
        key_position(e, k) matches Some(i) ==> 0 <= i < e.len() && e[i].0 == k,
    decreases e.len(),
{
    if e.len() > 0 {
        lemma_key_position_views(e.drop_last(), k);
        assert(e.map_values(|e: (usize, Window)| (e.0, e.1@)).drop_last() =~= e.drop_last().map_values(|e: (usize, Window)| (e.0, e.1@)));
        assert(e.map_values(|e: (usize, Window)| (e.0, e.1.open_state)).drop_last() =~= e.drop_last().map_values(|e: (usize, Window)| (e.0, e.1.open_state)));
    }
}

proof fn lemma_view_removed(e: Seq<(usize, Window)>, k: usize)
    ensures
        entries_removed(e, k).map_values(|e: (usize, Window)| (e.0, e.1@)) == entries_removed(
            e.map_values(|e: (usize, Window)| (e.0, e.1@)),
            k,
        ),
{
    lemma_key_position_views(e, k);
    let a = e.map_values(|e: (usize, Window)| (e.0, e.1@));
    assert(entries_removed(e, k).map_values(|e: (usize, Window)| (e.0, e.1@)) =~= entries_removed(a, k));
}

impl Window {
    /// The window a toplevel becomes.
    pub fn from(info: ToplevelInfo) -> (r: Window)
        ensures
            r@ == window_of(info),
    {
        let open_state = OpenState::from_toplevel(&info);
        Window { id: info.id, name: info.title, open_state, preview_buffer: None }
    }

    /// A copy of this window.
    pub fn duplicate(&self) -> (r: Window)
        ensures
            r@ == self@,
    {
        let preview_buffer = match &self.preview_buffer {
            Some(b) => {
                let mut bytes: Vec<u8> = Vec::new();
                let mut i: usize = 0;
                while i < b.0.len()
                    invariant
                        i <= b.0.len(),
                        bytes@ == b.0@.take(i as int),
                    decreases b.0.len() - i,
                {
                    bytes.push(b.0[i]);
                    i = i + 1;
                    assert(bytes@ =~= b.0@.take(i as int));
                }
                assert(b.0@.take(b.0.len() as int) =~= b.0@);
                Some(Buffer(bytes))
            },
            None => None,
        };
        Window {
            id: self.id,
            name: self.name.clone(),
            open_state: self.open_state,
            preview_buffer,
        }
    }
}

impl Clone for Window {
    fn clone(&self) -> (r: Self)
        ensures
            r@ == self@,
    {
        self.duplicate()
    }
}

impl Item {
    /// A copy of this item, windows included.
    pub fn duplicate(&self) -> (r: Item)
        ensures
            r@ == self@,
            r.open_state == self.open_state,
    {
        Item {
            app_id: self.app_id.clone(),
            favorite: self.favorite,
            open_state: self.open_state,
            windows: super::maps::windows_clone(&self.windows),
            name: self.name.clone(),
        }
    }

    /// An item for `app_id` with no windows.
    pub fn new(app_id: String, open_state: OpenState, favorite: bool) -> (r: Item)
        ensures
            r.app_id == app_id,
            r.open_state == open_state,
            r.favorite == favorite,
            windows_view(r.windows) == Seq::<(usize, WindowView)>::empty(),
            r.name@ == Seq::<char>::empty(),
    {
        let windows = windows_new();
        proof {
            assert(windows_view(windows) =~= Seq::<(usize, WindowView)>::empty());
        }
        Item { app_id, favorite, open_state, windows, name: String::new() }
    }

    /// The item for a toplevel's application, holding just that window.
    pub fn from(info: ToplevelInfo) -> (r: Item)
        ensures
            r.app_id@ == info.app_id@,
            !r.favorite,
            r.name@ == info.title@,
            windows_view(r.windows) == seq![(info.id, window_of(info))],
            r.open_state == (OpenState::Open { focused: info.focused }),
            state_is_merged(r),
    {
        let id = info.id;
        let name = info.title.clone();
        let app_id = info.app_id.clone();
        let open_state = OpenState::from_toplevel(&info);
        let ghost info0 = info;
        let mut windows = windows_new();
        let window = Window::from(info);
        let ghost wv = window@;
        let ghost ws = window.open_state;
        windows_insert(&mut windows, id, window);
        proof {
            let e0 = Seq::<(usize, Window)>::empty();
            assert(key_position(e0, id) is None);
            assert(window_entries(windows) =~= e0.push((id, window_entries(windows)[0].1)));
            assert(windows_view(windows) =~= seq![(id, wv)]);
            let st = window_states(windows);
            assert(st =~= seq![ws]);
            assert(st.drop_last() =~= Seq::<OpenState>::empty());
            assert(merged(st.drop_last()) == OpenState::Closed);
            assert(st.last() == ws);
            assert(merged(st) == merge2(OpenState::Closed, ws));
        }
        Item { app_id, favorite: false, open_state, windows, name }
    }

    /// Sets this item's open state to the merged result of its windows'
    /// open states.
    fn recalculate_open_state(&mut self)
        ensures
            final(self).open_state == merged(window_states(final(self).windows)),
            final(self).windows == old(self).windows,
            final(self).app_id == old(self).app_id,
            final(self).favorite == old(self).favorite,
            final(self).name == old(self).name,
    {
        let n = windows_len(&self.windows);
        let mut states: Vec<&OpenState> = Vec::new();
        let mut i: usize = 0;
        let ghost st = window_states(self.windows);
        while i < n
            invariant
                i <= n,
                n == window_entries(self.windows).len(),
                st == window_states(self.windows),
                states@.len() == i,
                forall|k: int| 0 <= k < i ==> *#[trigger] states@[k] == st[k],
            decreases n - i,
        {
            let (_, win) = windows_get_index(&self.windows, i);
            states.push(&win.open_state);
            i = i + 1;
        }
        let new_state = OpenState::merge_states(states.as_slice());
        proof {
            assert(states@.map_values(|s: &OpenState| *s) =~= st);
        }
        self.open_state = new_state;
    }

    /// Merges the provided toplevel into this launcher item.
    pub fn merge_toplevel(&mut self, info: ToplevelInfo) -> (w: Window)
        ensures
            w@ == window_of(info),
            windows_view(final(self).windows) == entries_inserted(windows_view(old(self).windows), info.id, window_of(info)),
            final(self).name@ == (if window_entries(old(self).windows).len() == 0 { info.title@ } else { old(self).name@ }),
            final(self).app_id == old(self).app_id,
            final(self).favorite == old(self).favorite,
            state_is_merged(*final(self)),
    {
        let id = info.id;
        if windows_len(&self.windows) == 0 {
            self.name = info.title.clone();
        }
        let window = Window::from(info);
        let copy = window.duplicate();
        let ghost before = window_entries(self.windows);
        windows_insert(&mut self.windows, id, copy);
        proof {
            lemma_view_inserted(before, id, copy);
        }
        self.recalculate_open_state();
        window
    }

    /// Removes the toplevel's window from this item.
    pub fn unmerge_toplevel(&mut self, info: &ToplevelInfo)
        ensures
            windows_view(final(self).windows) == entries_removed(windows_view(old(self).windows), info.id),
            final(self).name == old(self).name,
            final(self).app_id == old(self).app_id,
            final(self).favorite == old(self).favorite,
            state_is_merged(*final(self)),
    {
        let ghost before = window_entries(self.windows);
        windows_shift_remove(&mut self.windows, info.id);
        proof {
            lemma_view_removed(before, info.id);
        }
        self.recalculate_open_state();
    }

    /// Renames window `window_id`; the item takes the name too when that
    /// window has focus.
    pub fn set_window_name(&mut self, window_id: usize, name: String)
        ensures
            final(self).app_id == old(self).app_id,
            final(self).favorite == old(self).favorite,
            final(self).open_state == old(self).open_state,
            match key_position(window_entries(old(self).windows), window_id) {
                None => windows_view(final(self).windows) == windows_view(old(self).windows)
                    && final(self).name == old(self).name,
                Some(i) => {
                    let w = window_entries(old(self).windows)[i].1;
                    &&& windows_view(final(self).windows) == windows_view(old(self).windows).update(
                        i,
                        (window_id, WindowView { name: name@, ..w@ }),
                    )
                    &&& final(self).name@ == (if w.open_state == (OpenState::Open { focused: true }) {
                        name@
                    } else {
                        old(self).name@
                    })
                },
            },
            window_states(final(self).windows) == window_states(old(self).windows),
    {
        let ghost before = window_entries(self.windows);
        if let Some(i) = windows_index_of(&self.windows, window_id) {
            proof {
                lemma_key_position_views(before, window_id);
            }
            let window = windows_get_index_mut(&mut self.windows, i);
            if window.open_state == (OpenState::Open { focused: true }) {
                self.name = name.clone();
            }
            window.name = name;
            proof {
                let after = window_entries(self.windows);
                assert(windows_view(self.windows) =~= before.map_values(|e: (usize, Window)| (e.0, e.1@)).update(
                    i as int,
                    (window_id, WindowView { name: name@, ..before[i as int].1@ }),
                ));
                assert(window_states(self.windows) =~= window_states(old(self).windows));
            }
        }
    }

    /// Updates the focus of window `window_id` (merged into its state) and
    /// recalculates the item's state.
    pub fn set_window_focused(&mut self, window_id: usize, focused: bool)
        ensures
            final(self).app_id == old(self).app_id,
            final(self).favorite == old(self).favorite,
            final(self).name == old(self).name,
            match key_position(window_entries(old(self).windows), window_id) {
                None => windows_view(final(self).windows) == windows_view(old(self).windows)
                    && final(self).open_state == old(self).open_state,
                Some(i) => {
                    let w = window_entries(old(self).windows)[i].1;
                    &&& windows_view(final(self).windows) == windows_view(old(self).windows).update(
                        i,
                        (window_id, WindowView {
                            open_state: merge2(w.open_state, OpenState::Open { focused }),
                            ..w@
                        }),
                    )
                    &&& state_is_merged(*final(self))
                },
            },
    {
        let ghost before = window_entries(self.windows);
        if let Some(i) = windows_index_of(&self.windows, window_id) {
            proof {
                lemma_key_position_views(before, window_id);
            }
            let window = windows_get_index_mut(&mut self.windows, i);
            let current = window.open_state;
            let focus = OpenState::focused(focused);
            window.open_state = OpenState::merge_states(&[&current, &focus]);
            proof {
                assert(seq![&current, &focus].map_values(|s: &OpenState| *s) =~= seq![current, focus]);
                assert(seq![current, focus].drop_last() =~= seq![current]);
                assert(seq![current].drop_last() =~= Seq::<OpenState>::empty());
                assert(windows_view(self.windows) =~= before.map_values(|e: (usize, Window)| (e.0, e.1@)).update(
                    i as int,
                    (window_id, WindowView { open_state: merge2(current, focus), ..before[i as int].1@ }),
                ));
            }
            self.recalculate_open_state();
        }
    }

    /// Sets the preview image of window `window_id`.
    pub fn set_window_buffer(&mut self, window_id: usize, buffer: Option<Buffer>)
        ensures
            final(self).app_id == old(self).app_id,
            final(self).favorite == old(self).favorite,
            final(self).name == old(self).name,
            final(self).open_state == old(self).open_state,
            window_states(final(self).windows) == window_states(old(self).windows),
            match key_position(window_entries(old(self).windows), window_id) {
                None => windows_view(final(self).windows) == windows_view(old(self).windows),
                Some(i) => windows_view(final(self).windows) == windows_view(old(self).windows).update(
                    i,
                    (window_id, WindowView {
                        preview: buffer_view(buffer),
                        ..window_entries(old(self).windows)[i].1@
                    }),
                ),
            },
    {
        let ghost before = window_entries(self.windows);
        let ghost bview = buffer_view(buffer);
        if let Some(i) = windows_index_of(&self.windows, window_id) {
            proof {
                lemma_key_position_views(before, window_id);
            }
            let window = windows_get_index_mut(&mut self.windows, i);
            window.preview_buffer = buffer;
            proof {
                assert(windows_view(self.windows) =~= before.map_values(|e: (usize, Window)| (e.0, e.1@)).update(
                    i as int,
                    (window_id, WindowView { preview: bview, ..before[i as int].1@ }),
                ));
                assert(window_states(self.windows) =~= window_states(old(self).windows));
            }
        }
    }
}

} // verus!

//! Lock keys and keyboard layout: the icon and state shown for each lock
//! key, the events a device change produces, and the text shown for the
//! active layout.
use vstd::prelude::*;

use indexmap::IndexMap;

use crate::menu::maps::key_pos;
use crate::text::{chars_of, owned, str_eq, string_of};

verus! {

/// A lock key.
#[derive(Debug, Clone, Copy, PartialEq, Eq, Structural)]
pub enum Key {
    Caps,
    Num,
    Scroll,
}

/// A lock key changed state.
#[derive(Debug, Clone, Copy, PartialEq, Eq, Structural)]
pub struct KeyEvent {
    pub key: Key,
    pub state: bool,
}

/// Icons for each lock key, on and off.
#[derive(Debug, Clone)]
pub struct KeyIcons {
    pub caps_on: String,
    pub caps_off: String,
    pub num_on: String,
    pub num_off: String,
    pub scroll_on: String,
    pub scroll_off: String,
}

/// The default lock-key icons: a glyph when on, nothing when off.
pub open spec fn is_default_key_icons(i: KeyIcons) -> bool {
    &&& i.caps_on@ == "\u{f0a9b}"@
    &&& i.caps_off@ == ""@
    &&& i.num_on@ == "\u{f4f7}"@
    &&& i.num_off@ == ""@
    &&& i.scroll_on@ == "\u{ef0d}"@
    &&& i.scroll_off@ == ""@
}

impl KeyIcons {
    /// The default lock-key icons.
    pub fn default() -> (r: KeyIcons)
        ensures
            is_default_key_icons(r),
    {
        KeyIcons {
            caps_on: owned("\u{f0a9b}"),
            caps_off: owned(""),
            num_on: owned("\u{f4f7}"),
            num_off: owned(""),
            scroll_on: owned("\u{ef0d}"),
            scroll_off: owned(""),
        }
    }
}

/// The lock-keys module's configuration.
#[derive(Debug, Clone)]
pub struct KeysModule {
    pub show_caps: bool,
    pub show_num: bool,
    pub show_scroll: bool,
    pub icon_size: i32,
    pub icons: KeyIcons,
    pub seat: String,
}

impl KeysModule {
    /// All keys shown, 32-pixel icons, the default icons, seat `seat0`.
    pub fn default() -> (r: KeysModule)
        ensures
            r.show_caps && r.show_num && r.show_scroll,
            r.icon_size == 32,
            is_default_key_icons(r.icons),
            r.seat@ == "seat0"@,
    {
        KeysModule {
            show_caps: true,
            show_num: true,
            show_scroll: true,
            icon_size: 32,
            icons: KeyIcons::default(),
            seat: owned("seat0"),
        }
    }
}

/// The events a device change sends from the lock-keys module: the
/// states of caps, num and scroll lock, in that order, each reported as
/// caps lock.
pub fn keys_device_events(caps: bool, num: bool, scroll: bool) -> (r: Vec<KeyEvent>)
    ensures
        r@ == seq![
            KeyEvent { key: Key::Caps, state: caps },
            KeyEvent { key: Key::Caps, state: num },
            KeyEvent { key: Key::Caps, state: scroll },
        ],
{
    let mut v: Vec<KeyEvent> = Vec::new();
    v.push(KeyEvent { key: Key::Caps, state: caps });
    v.push(KeyEvent { key: Key::Caps, state: num });
    v.push(KeyEvent { key: Key::Caps, state: scroll });
    v
}

/// The events a device change sends from the keyboard module: the states
/// of caps, num and scroll lock, each for its own key.
pub fn keyboard_device_events(caps: bool, num: bool, scroll: bool) -> (r: Vec<KeyEvent>)
    ensures
        r@ == seq![
            KeyEvent { key: Key::Caps, state: caps },
            KeyEvent { key: Key::Num, state: num },
            KeyEvent { key: Key::Scroll, state: scroll },
        ],
{
    let mut v: Vec<KeyEvent> = Vec::new();
    v.push(KeyEvent { key: Key::Caps, state: caps });
    v.push(KeyEvent { key: Key::Num, state: num });
    v.push(KeyEvent { key: Key::Scroll, state: scroll });
    v
}

/// How a key event shows, when its key is shown: the key's label, the
/// icon for its new state, and whether it is marked enabled.
pub open spec fn spec_key_display(
    ev: KeyEvent,
    show_caps: bool,
    show_num: bool,
    show_scroll: bool,
    icons: KeyIcons,
) -> Option<(Key, Seq<char>, bool)> {
    match ev.key {
        Key::Caps => if show_caps {
            Some((Key::Caps, if ev.state { icons.caps_on@ } else { icons.caps_off@ }, ev.state))
        } else {
            None
        },
        Key::Num => if show_num {
            Some((Key::Num, if ev.state { icons.num_on@ } else { icons.num_off@ }, ev.state))
        } else {
            None
        },
        Key::Scroll => if show_scroll {
            Some((Key::Scroll, if ev.state { icons.scroll_on@ } else { icons.scroll_off@ }, ev.state))
        } else {
            None
        },
    }
}

/// The label update for a key event.
pub fn key_display(
    ev: KeyEvent,
    show_caps: bool,
    show_num: bool,
    show_scroll: bool,
    icons: &KeyIcons,
) -> (r: Option<(Key, String, bool)>)
    ensures
        match spec_key_display(ev, show_caps, show_num, show_scroll, *icons) {
            Some((k, t, e)) => r matches Some((rk, rt, re)) && rk == k && rt@ == t && re == e,
            None => r is None,
        },
{
    let icon = match ev.key {
        Key::Caps => if !show_caps {
            return None;
        } else if ev.state {
            &icons.caps_on
        } else {
            &icons.caps_off
        },
        Key::Num => if !show_num {
            return None;
        } else if ev.state {
            &icons.num_on
        } else {
            &icons.num_off
        },
        Key::Scroll => if !show_scroll {
            return None;
        } else if ev.state {
            &icons.scroll_on
        } else {
            &icons.scroll_off
        },
    };
    Some((ev.key, icon.clone(), ev.state))
}

/// The (pattern, display text) pairs of a layout map, in map order.
pub uninterp spec fn layout_entries(m: IndexMap<String, String>) -> Seq<(Seq<char>, Seq<char>)>;

/// `IndexMap::len` for a layout map.
#[verifier::external_body]
fn layout_len(m: &IndexMap<String, String>) -> (r: usize)
    ensures
        r == layout_entries(*m).len(),
{
    m.len()
}

/// `IndexMap::get_index` for a layout map, at a position that exists.
#[verifier::external_body]
fn layout_get_index(m: &IndexMap<String, String>, i: usize) -> (r: (&String, &String))
    requires
        i < layout_entries(*m).len(),
    ensures
        (r.0@, r.1@) == layout_entries(*m)[i as int],
{
    m.get_index(i).unwrap()
}

/// A layout pattern matches a language name: a pattern ending in `*`
/// matches names that start with the rest, any other matches itself.
pub open spec fn pattern_matches(pattern: Seq<char>, language: Seq<char>) -> bool {
    if pattern.len() > 0 && pattern.last() == '*' {
        let prefix = pattern.drop_last();
        prefix.len() <= language.len() && language.take(prefix.len() as int) == prefix
    } else {
        pattern == language
    }
}

/// The text shown for a layout: the display text of the first pattern
/// that matches, else the layout's name.
pub open spec fn spec_layout_text(entries: Seq<(Seq<char>, Seq<char>)>, language: Seq<char>) -> Seq<char>
    decreases entries.len(),
{
    if entries.len() == 0 {
        language
    } else if pattern_matches(entries[0].0, language) {
        entries[0].1
    } else {
        spec_layout_text(entries.drop_first(), language)
    }
}

/// Whether `pattern` matches `language`.
fn matches_pattern(pattern: &str, language: &str) -> (r: bool)
    ensures
        r == pattern_matches(pattern@, language@),
{
    let p = chars_of(pattern);
    let l = chars_of(language);
    if p.len() > 0 && p[p.len() - 1] == '*' {
        let n = p.len() - 1;
        if n > l.len() {
            return false;
        }
        let mut i: usize = 0;
        while i < n
            invariant
                p@ == pattern@,
                l@ == language@,
                p@.len() > 0,
                p@.last() == '*',
                n == p@.len() - 1,
                n <= l@.len(),
                i <= n,
                forall|k: int| 0 <= k < i ==> p@[k] == l@[k],
            decreases n - i,
        {
            if p[i] != l[i] {
                assert(l@.take(n as int)[i as int] != p@.drop_last()[i as int]);
                return false;
            }
            i = i + 1;
        }
        assert(l@.take(n as int) =~= p@.drop_last());
        true
    } else {
        str_eq(pattern, language)
    }
}

/// The text shown for the active keyboard layout.
pub fn layout_text(layout_map: &IndexMap<String, String>, language: &str) -> (r: String)
    ensures
        r@ == spec_layout_text(layout_entries(*layout_map), language@),
{
    let ghost e = layout_entries(*layout_map);
    let n = layout_len(layout_map);
    let mut i: usize = 0;
    assert(e.skip(0) =~= e);
    while i < n
        invariant
            n == e.len(),
            e == layout_entries(*layout_map),
            i <= n,
            spec_layout_text(e.skip(i as int), language@) == spec_layout_text(e, language@),
        decreases n - i,
    {
        let (pattern, display) = layout_get_index(layout_map, i);
        assert(e.skip(i as int).drop_first() =~= e.skip(i + 1));
        if matches_pattern(pattern.as_str(), language) {
            return display.clone();
        }
        i = i + 1;
    }
    owned(language)
}

/// The keyboard module's configuration.
#[derive(Debug)]
pub struct KeyboardModule {
    pub show_caps: bool,
    pub show_num: bool,
    pub show_scroll: bool,
    pub show_layout: bool,
    pub icon_size: i32,
    pub icons: KeyIcons,
    /// Display texts for layouts, by name pattern.
    pub layout_map: IndexMap<String, String>,
    pub seat: String,
}

/// `IndexMap::new` for a layout map.
#[verifier::external_body]
fn layout_new() -> (r: IndexMap<String, String>)
    ensures
        layout_entries(r) == Seq::<(Seq<char>, Seq<char>)>::empty(),
{
    IndexMap::new()
}

impl KeyboardModule {
    /// Everything shown, 32-pixel icons, the default icons, no layout
    /// texts, seat `seat0`.
    pub fn default() -> (r: KeyboardModule)
        ensures
            r.show_caps && r.show_num && r.show_scroll && r.show_layout,
            r.icon_size == 32,
            is_default_key_icons(r.icons),
            layout_entries(r.layout_map).len() == 0,
            r.seat@ == "seat0"@,
    {
        KeyboardModule {
            show_caps: true,
            show_num: true,
            show_scroll: true,
            show_layout: true,
            icon_size: 32,
            icons: KeyIcons::default(),
            layout_map: layout_new(),
            seat: owned("seat0"),
        }
    }
}

} // verus!

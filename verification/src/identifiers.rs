//! The names and style classes a module's widget and popup get from the
//! common configuration.
use vstd::prelude::*;

use crate::text::{append_chars, chars_of, string_of};

verus! {

/// The pieces of `s` between occurrences of `c` (`str::split` with a
/// character): empty pieces included, so there is always one more piece
/// than there are separators.
pub open spec fn split_char(s: Seq<char>, c: char) -> Seq<Seq<char>>
    decreases s.len(),
{
    if s.len() == 0 {
        seq![Seq::<char>::empty()]
    } else {
        let rest = split_char(s.drop_last(), c);
        if s.last() == c {
            rest.push(Seq::<char>::empty())
        } else {
            rest.update(rest.len() - 1, rest.last().push(s.last()))
        }
    }
}

/// The texts of a list of strings.
pub open spec fn texts(v: Seq<String>) -> Seq<Seq<char>> {
    v.map_values(|s: String| s@)
}

/// Splits `s` at each `c`, as `str::split` does.
pub fn split_on(s: &str, c: char) -> (r: Vec<String>)
    ensures
        texts(r@) == split_char(s@, c),
{
    let v = chars_of(s);
    let mut done: Vec<String> = Vec::new();
    let mut cur: Vec<char> = Vec::new();
    let mut i: usize = 0;
    assert(v@.take(0) =~= Seq::<char>::empty());
    while i < v.len()
        invariant
            i <= v.len(),
            v@ == s@,
            texts(done@).push(cur@) == split_char(v@.take(i as int), c),
        decreases v.len() - i,
    {
        let ghost before = texts(done@).push(cur@);
        assert(v@.take(i + 1).drop_last() =~= v@.take(i as int));
        assert(v@.take(i + 1).last() == v@[i as int]);
        if v[i] == c {
            let piece = string_of(&cur);
            done.push(piece);
            cur = Vec::new();
            assert(texts(done@).push(cur@) =~= before.push(Seq::<char>::empty()));
        } else {
            cur.push(v[i]);
            assert(texts(done@).push(cur@) =~= before.update(before.len() - 1, before.last().push(v@[i as int])));
        }
        i = i + 1;
    }
    assert(v@.take(v.len() as int) =~= v@);
    let last = string_of(&cur);
    done.push(last);
    assert(texts(done@) =~= split_char(s@, c));
    done
}

/// `prefix` followed by `s`.
fn prefixed(prefix: &str, s: &str) -> (r: String)
    ensures
        r@ == prefix@ + s@,
{
    let mut out = chars_of(prefix);
    let t = chars_of(s);
    append_chars(&mut out, &t);
    string_of(&out)
}

/// The names and classes to apply.
#[derive(Debug)]
pub struct Identifiers {
    /// The widget's name, when one is configured.
    pub widget_name: Option<String>,
    /// The popup's name, when one is configured and there is a popup.
    pub popup_name: Option<String>,
    /// The widget's style classes.
    pub classes: Vec<String>,
    /// The popup's style classes.
    pub popup_classes: Vec<String>,
}

/// The text of an optional string.
pub open spec fn opt_text(o: Option<String>) -> Option<Seq<char>> {
    match o {
        Some(s) => Some(s@),
        None => None,
    }
}

/// The text of an optional string slice.
pub open spec fn opt_str_text(o: Option<&str>) -> Option<Seq<char>> {
    match o {
        Some(s) => Some(s@),
        None => None,
    }
}

/// Each piece with `popup-` in front.
pub open spec fn popup_prefixed(pieces: Seq<Seq<char>>) -> Seq<Seq<char>> {
    pieces.map_values(|p: Seq<char>| "popup-"@ + p)
}

/// The identifiers a module gets from its configured name and class.  The
/// widget is named `name` and the popup `popup-name`; the class list is
/// split at spaces into separate classes (GTK would treat a class with
/// spaces as a single class), and each gets `popup-` in front for the
/// popup.  The popup is only named and classed when there is one.
pub fn identifiers(name: Option<&str>, class: Option<&str>, has_popup: bool) -> (r: Identifiers)
    ensures
        opt_text(r.widget_name) == opt_str_text(name),
        opt_text(r.popup_name) == (if has_popup {
            match opt_str_text(name) {
                Some(n) => Some("popup-"@ + n),
                None => None,
            }
        } else {
            None
        }),
        texts(r.classes@) == match opt_str_text(class) {
            Some(c) => split_char(c, ' '),
            None => Seq::empty(),
        },
        texts(r.popup_classes@) == (if has_popup {
            match opt_str_text(class) {
                Some(c) => popup_prefixed(split_char(c, ' ')),
                None => Seq::empty(),
            }
        } else {
            Seq::empty()
        }),
{
    let widget_name = match name {
        Some(n) => Some(string_of(&chars_of(n))),
        None => None,
    };
    let popup_name = match name {
        Some(n) => if has_popup {
            Some(prefixed("popup-", n))
        } else {
            None
        },
        None => None,
    };
    let mut classes: Vec<String> = Vec::new();
    let mut popup_classes: Vec<String> = Vec::new();
    assert(texts(classes@) =~= Seq::<Seq<char>>::empty());
    assert(texts(popup_classes@) =~= Seq::<Seq<char>>::empty());
    if let Some(c) = class {
        let parts = split_on(c, ' ');
        let mut i: usize = 0;
        while i < parts.len()
            invariant
                i <= parts.len(),
                texts(parts@) == split_char(c@, ' '),
                texts(classes@) == texts(parts@).take(i as int),
                texts(popup_classes@) == (if has_popup {
                    popup_prefixed(texts(parts@).take(i as int))
                } else {
                    Seq::empty()
                }),
            decreases parts.len() - i,
        {
            let ghost old_classes = texts(classes@);
            let ghost old_popup = texts(popup_classes@);
            let piece = string_of(&chars_of(parts[i].as_str()));
            classes.push(piece);
            assert(texts(classes@) =~= old_classes.push(parts@[i as int]@));
            assert(texts(parts@).take(i + 1) =~= texts(parts@).take(i as int).push(parts@[i as int]@));
            if has_popup {
                let p = prefixed("popup-", parts[i].as_str());
                popup_classes.push(p);
                assert(texts(popup_classes@) =~= old_popup.push("popup-"@ + parts@[i as int]@));
                assert(popup_prefixed(texts(parts@).take(i + 1)) =~= popup_prefixed(
                    texts(parts@).take(i as int),
                ).push("popup-"@ + parts@[i as int]@));
            }
            i = i + 1;
        }
        assert(texts(parts@).take(parts.len() as int) =~= texts(parts@));
    }
    Identifiers { widget_name, popup_name, classes, popup_classes }
}

} // verus!

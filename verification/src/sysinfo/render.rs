//! Rendering parsed format strings once the values are known.
use vstd::prelude::*;

use super::parser::{lemma_plain_text_is_static, spec_parse_input};
use super::token::{Alignment, Formatting, Part, PartView};
use crate::text::{append_chars, append_str, chars_of, string_of};

verus! {

/// The number of bytes `c` takes in UTF-8 (`char::len_utf8`).
pub open spec fn utf8_len(c: char) -> nat {
    if (c as u32) < 0x80 {
        1
    } else if (c as u32) < 0x800 {
        2
    } else if (c as u32) < 0x10000 {
        3
    } else {
        4
    }
}

/// The number of bytes the characters `s` take in UTF-8 (`String::len`).
pub open spec fn utf8_bytes(s: Seq<char>) -> nat
    decreases s.len(),
{
    if s.len() == 0 {
        0
    } else {
        utf8_bytes(s.drop_last()) + utf8_len(s.last())
    }
}

/// `n` copies of `c`.
pub open spec fn repeat(c: char, n: nat) -> Seq<char> {
    Seq::new(n, |i: int| c)
}

/// How many fill characters are added: the fewest that bring the byte
/// length of the text to at least `width`.
pub open spec fn fill_count(len: nat, width: nat, fill: char) -> nat {
    if len >= width {
        0
    } else {
        ((width - len + utf8_len(fill) - 1) / (utf8_len(fill) as int)) as nat
    }
}

/// How many of `n` fill characters go in front of the text.  Fill is added
/// alternately in front and behind for `Center` (front first), only behind
/// for `Right`, and only in front otherwise.
pub open spec fn fill_in_front(n: nat, align: Alignment) -> nat {
    match align {
        Alignment::Right => 0,
        Alignment::Center => (n + 1) / 2,
        Alignment::Left => n,
    }
}

/// `text` padded with `fmt.fill` until its UTF-8 length reaches `fmt.width`.
pub open spec fn padded(text: Seq<char>, fmt: Formatting) -> Seq<char> {
    let n = fill_count(utf8_bytes(text), fmt.width as nat, fmt.fill);
    let front = fill_in_front(n, fmt.align);
    repeat(fmt.fill, front) + text + repeat(fmt.fill, (n - front) as nat)
}

/// The UTF-8 length of one character.
pub fn char_utf8_len(c: char) -> (r: u8)
    ensures
        r == utf8_len(c),
{
    let v = c as u32;
    if v < 0x80 {
        1
    } else if v < 0x800 {
        2
    } else if v < 0x10000 {
        3
    } else {
        4
    }
}

proof fn lemma_fill_count_done(len: nat, width: nat, f: nat, k: nat)
    requires
        1 <= f <= 4,
        len < width,
        k > 0,
        len + (k - 1) * f < width,
        len + k * f >= width,
    ensures
        ((width - len + f - 1) / (f as int)) == k,
{
    assert(((width - len + f - 1) / (f as int)) == k) by (nonlinear_arith)
        requires
            1 <= f <= 4,
            len < width,
            k > 0,
            len + (k - 1) * f < width,
            len + k * f >= width,
    ;
}

/// Pads a rendered number as its formatting asks.
pub fn apply_padding(text: &str, fmt: Formatting) -> (r: String)
    ensures
        r@ == padded(text@, fmt),
{
    let chars = chars_of(text);
    let mut blen: u128 = 0;
    let mut i: usize = 0;
    while i < chars.len()
        invariant
            i <= chars.len(),
            blen == utf8_bytes(chars@.take(i as int)),
            blen <= 4 * i,
        decreases chars.len() - i,
    {
        assert(chars@.take(i + 1).drop_last() =~= chars@.take(i as int));
        blen = blen + char_utf8_len(chars[i]) as u128;
        i = i + 1;
    }
    assert(chars@.take(chars.len() as int) =~= chars@);
    let f = char_utf8_len(fmt.fill) as u128;
    let width = fmt.width as u128;
    let ghost len0 = blen as nat;
    let mut front: usize = 0;
    let mut back: usize = 0;
    let mut add_to_end = fmt.align == Alignment::Right;
    let mut count: usize = 0;
    while blen < width
        invariant
            1 <= f <= 4,
            f == utf8_len(fmt.fill),
            width == fmt.width,
            blen == len0 + count * f,
            count <= fmt.width,
            front + back == count,
            front == fill_in_front(count as nat, fmt.align),
            add_to_end == (match fmt.align {
                Alignment::Right => true,
                Alignment::Center => count % 2 == 1,
                Alignment::Left => false,
            }),
            count > 0 ==> len0 + (count - 1) * f < width,
        decreases fmt.width - count,
    {
        if add_to_end {
            back = back + 1;
        } else {
            front = front + 1;
        }
        if fmt.align == Alignment::Center {
            add_to_end = !add_to_end;
        }
        blen = blen + f;
        count = count + 1;
        assert(count <= fmt.width) by (nonlinear_arith)
            requires
                blen == len0 + count * f,
                f >= 1,
                blen - f < width,
                width == fmt.width,
        ;
    }
    proof {
        if len0 >= fmt.width {
            assert(count == 0);
        } else {
            lemma_fill_count_done(len0, fmt.width as nat, f as nat, count as nat);
        }
    }
    let mut out: Vec<char> = Vec::new();
    let mut k: usize = 0;
    while k < front
        invariant
            k <= front,
            out@ == repeat(fmt.fill, k as nat),
        decreases front - k,
    {
        out.push(fmt.fill);
        k = k + 1;
        assert(out@ =~= repeat(fmt.fill, k as nat));
    }
    append_chars(&mut out, &chars);
    let ghost mid = out@;
    k = 0;
    while k < back
        invariant
            k <= back,
            out@ == mid + repeat(fmt.fill, k as nat),
        decreases back - k,
    {
        out.push(fmt.fill);
        k = k + 1;
        assert(out@ =~= mid + repeat(fmt.fill, k as nat));
    }
    string_of(&out)
}

/// What a placeholder shows: text as it is (such as an uptime), or a
/// number already written with the placeholder's precision, to be padded.
pub enum TokenText {
    Text(String),
    Number(String),
}

/// What a part renders to, given the text for its value.
pub open spec fn spec_render(part: PartView, value: Option<TokenText>) -> Seq<char> {
    match part {
        PartView::Static(s) => s,
        PartView::Token(t) => match value {
            Some(TokenText::Text(v)) => v@,
            Some(TokenText::Number(v)) => padded(v@, t.formatting),
            None => Seq::empty(),
        },
    }
}

impl Part {
    /// Renders one part: literal text as it is, a placeholder as its value.
    pub fn render(&self, value: Option<&TokenText>) -> (r: String)
        ensures
            r@ == spec_render(self@, match value { Some(v) => Some(*v), None => None }),
    {
        match self {
            Part::Static(s) => s.clone(),
            Part::Token(t) => match value {
                Some(TokenText::Text(v)) => v.clone(),
                Some(TokenText::Number(v)) => apply_padding(v.as_str(), t.formatting),
                None => String::new(),
            },
        }
    }
}

/// The concatenation of the renderings of `parts`.
pub open spec fn spec_render_all(parts: Seq<PartView>, values: Seq<Option<TokenText>>) -> Seq<char>
    decreases parts.len(),
{
    if parts.len() == 0 {
        Seq::empty()
    } else {
        spec_render_all(parts.drop_last(), values) + spec_render(
            parts.last(),
            if parts.len() - 1 < values.len() { values[parts.len() - 1] } else { None },
        )
    }
}

/// Renders a whole format: each part with the value at the same position.
pub fn render_all(parts: &Vec<Part>, values: &Vec<Option<TokenText>>) -> (r: String)
    ensures
        r@ == spec_render_all(parts@.map_values(|p: Part| p@), values@),
{
    let mut out = String::new();
    let mut i: usize = 0;
    let ghost pv = parts@.map_values(|p: Part| p@);
    while i < parts.len()
        invariant
            i <= parts.len(),
            pv == parts@.map_values(|p: Part| p@),
            out@ == spec_render_all(pv.take(i as int), values@),
        decreases parts.len() - i,
    {
        let value = if i < values.len() {
            match &values[i] {
                Some(v) => Some(v),
                None => None,
            }
        } else {
            None
        };
        let s = parts[i].render(value);
        append_str(&mut out, s.as_str());
        proof {
            assert(pv.take(i + 1).drop_last() =~= pv.take(i as int));
            assert(pv.take(i + 1).last() == parts@[i as int]@);
        }
        i = i + 1;
    }
    assert(pv.take(parts.len() as int) =~= pv);
    out
}

/// A format with no placeholder renders as itself, whatever the values.
pub proof fn lemma_plain_format_renders_as_itself(s: Seq<char>, values: Seq<Option<TokenText>>)
    requires
        s.len() > 0,
        forall|k: int| 0 <= k < s.len() ==> s[k] != '{',
    ensures
        spec_parse_input(s) matches Ok(parts) && spec_render_all(parts, values) == s,
{
    lemma_plain_text_is_static(s);
    let parts = seq![PartView::Static(s)];
    assert(parts.drop_last() =~= Seq::<PartView>::empty());
    assert(spec_render_all(parts.drop_last(), values) == Seq::<char>::empty());
    assert(Seq::<char>::empty() + s =~= s);
}

/// The value at position `i`, none past the end.
pub open spec fn value_at(values: Seq<Option<TokenText>>, i: int) -> Option<TokenText> {
    if 0 <= i < values.len() {
        values[i]
    } else {
        None
    }
}

/// Rendering depends on the values only at the parts' positions.
proof fn lemma_render_all_values(parts: Seq<PartView>, v1: Seq<Option<TokenText>>, v2: Seq<Option<TokenText>>)
    requires
        forall|i: int| 0 <= i < parts.len() ==> value_at(v1, i) == value_at(v2, i),
    ensures
        spec_render_all(parts, v1) == spec_render_all(parts, v2),
    decreases parts.len(),
{
    if parts.len() > 0 {
        lemma_render_all_values(parts.drop_last(), v1, v2);
        assert(value_at(v1, parts.len() - 1) == value_at(v2, parts.len() - 1));
    }
}

/// Rendering a format made of two halves, each with its own values, gives
/// the renderings of the halves one after the other; the empty format
/// renders as nothing and a lone literal as itself.
pub proof fn lemma_render_all_split(
    a: Seq<PartView>,
    b: Seq<PartView>,
    va: Seq<Option<TokenText>>,
    vb: Seq<Option<TokenText>>,
)
    requires
        va.len() == a.len(),
    ensures
        spec_render_all(a + b, va + vb) == spec_render_all(a, va) + spec_render_all(b, vb),
        spec_render_all(Seq::empty(), va) == Seq::<char>::empty(),
        forall|t: Seq<char>| spec_render_all(seq![PartView::Static(t)], va) == t,
    decreases b.len(),
{
    assert forall|t: Seq<char>| spec_render_all(seq![PartView::Static(t)], va) == t by {
        let one = seq![PartView::Static(t)];
        assert(one.drop_last() =~= Seq::<PartView>::empty());
        assert(spec_render_all(one.drop_last(), va) == Seq::<char>::empty());
        assert(one.last() == PartView::Static(t));
        assert(spec_render(one.last(), if 0 < va.len() { va[0] } else { None }) == t);
        assert(Seq::<char>::empty() + t =~= t);
    }
    if b.len() == 0 {
        assert(a + b =~= a);
        assert forall|i: int| 0 <= i < a.len() implies value_at(va + vb, i) == value_at(va, i) by {}
        lemma_render_all_values(a, va + vb, va);
        assert(spec_render_all(a, va) + Seq::<char>::empty() =~= spec_render_all(a, va));
    } else {
        lemma_render_all_split(a, b.drop_last(), va, vb);
        assert((a + b).drop_last() =~= a + b.drop_last());
        assert((a + b).last() == b.last());
        let n = (a + b).len() - 1;
        assert(value_at(va + vb, n) == value_at(vb, b.len() - 1));
        assert(spec_render_all(a + b, va + vb) == spec_render_all(a + b.drop_last(), va + vb) + spec_render(
            b.last(),
            value_at(vb, b.len() - 1),
        ));
        assert(spec_render_all(b, vb) == spec_render_all(b.drop_last(), vb) + spec_render(
            b.last(),
            value_at(vb, b.len() - 1),
        ));
        assert(spec_render_all(a, va) + spec_render_all(b.drop_last(), vb) + spec_render(b.last(), value_at(vb, b.len() - 1))
            =~= spec_render_all(a, va) + (spec_render_all(b.drop_last(), vb) + spec_render(b.last(), value_at(vb, b.len() - 1))));
    }
}

} // verus!

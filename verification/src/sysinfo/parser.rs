//! Reading a system-information format string such as
//! `Freq: {cpu_frequency@cpu0#G:0<5.2} GHz` into its parts.
//!
//! Outside braces everything is literal text.  Inside, the placeholder is
//! `name[@function][#prefix][:formatting]`, where the formatting is
//! `[fill][align][width][.precision]` in any order before the dot.
use vstd::prelude::*;

use super::token::{
    Alignment, FormatError, FormatErrorView, Formatting, Function, FunctionView, Part, PartView, Prefix, Token,
    TokenType, TokenView, alignment_of_char, default_formatting, default_function, default_prefix,
    function_of_name, prefix_of_name, token_type_of_name,
};
use crate::decimal::{parse_unsigned, parse_usize};
use crate::text::string_of;

verus! {

/// The mode a placeholder body is read in: `@` switches to the function
/// name, `#` to the prefix.
#[derive(Debug, Clone, Copy, PartialEq, Eq, Structural)]
pub enum DynamicMode {
    Token,
    Name,
    Prefix,
}

/// The first `{` at or after `i`, or the end of `s`.
pub open spec fn static_end(s: Seq<char>, i: int) -> int
    decreases s.len() - i,
{
    if i >= s.len() {
        s.len() as int
    } else if s[i] == '{' {
        i
    } else {
        static_end(s, i + 1)
    }
}

/// The first `}` or `:` at or after `i`, or the end of `s`.
pub open spec fn dynamic_end(s: Seq<char>, i: int) -> int
    decreases s.len() - i,
{
    if i >= s.len() {
        s.len() as int
    } else if s[i] == '}' || s[i] == ':' {
        i
    } else {
        dynamic_end(s, i + 1)
    }
}

/// The first `}` at or after `i`, or the end of `s`.
pub open spec fn format_end(s: Seq<char>, i: int) -> int
    decreases s.len() - i,
{
    if i >= s.len() {
        s.len() as int
    } else if s[i] == '}' {
        i
    } else {
        format_end(s, i + 1)
    }
}

/// The mode in effect after reading `seg`: that of its last `@` or `#`.
pub open spec fn mode_after(seg: Seq<char>) -> DynamicMode
    decreases seg.len(),
{
    if seg.len() == 0 {
        DynamicMode::Token
    } else if seg.last() == '@' {
        DynamicMode::Name
    } else if seg.last() == '#' {
        DynamicMode::Prefix
    } else {
        mode_after(seg.drop_last())
    }
}

/// The characters of `seg`, other than `@` and `#`, read while in mode `m`.
pub open spec fn field(seg: Seq<char>, m: DynamicMode) -> Seq<char>
    decreases seg.len(),
{
    if seg.len() == 0 {
        seg
    } else {
        let prev = field(seg.drop_last(), m);
        let c = seg.last();
        if c != '@' && c != '#' && mode_after(seg.drop_last()) == m {
            prev.push(c)
        } else {
            prev
        }
    }
}

/// A width digit: `1` to `9` (a `0` is a fill character).
pub open spec fn is_width_digit(c: char) -> bool {
    '1' <= c && c <= '9'
}

/// An alignment character.
pub open spec fn is_align_char(c: char) -> bool {
    c == '<' || c == '^' || c == '>'
}

/// The position of the first `.` in `seg`, or its length.
pub open spec fn first_dot(seg: Seq<char>) -> int
    decreases seg.len(),
{
    if seg.len() == 0 {
        0
    } else {
        let q = first_dot(seg.drop_last());
        if q < seg.len() - 1 {
            q
        } else if seg.last() == '.' {
            seg.len() - 1
        } else {
            seg.len() as int
        }
    }
}

/// The width digits of `seg`, in order.
pub open spec fn width_digits(seg: Seq<char>) -> Seq<char>
    decreases seg.len(),
{
    if seg.len() == 0 {
        seg
    } else if is_width_digit(seg.last()) {
        width_digits(seg.drop_last()).push(seg.last())
    } else {
        width_digits(seg.drop_last())
    }
}

/// The characters of `seg` other than `.`, in order.
pub open spec fn without_dots(seg: Seq<char>) -> Seq<char>
    decreases seg.len(),
{
    if seg.len() == 0 {
        seg
    } else if seg.last() != '.' {
        without_dots(seg.drop_last()).push(seg.last())
    } else {
        without_dots(seg.drop_last())
    }
}

/// The last alignment character of `seg`, or `d` when there is none.
pub open spec fn last_align(seg: Seq<char>, d: Alignment) -> Alignment
    decreases seg.len(),
{
    if seg.len() == 0 {
        d
    } else if is_align_char(seg.last()) {
        alignment_of_char(seg.last()).unwrap()
    } else {
        last_align(seg.drop_last(), d)
    }
}

/// The last character of `seg` that is neither a width digit nor an
/// alignment character, or `d` when there is none.
pub open spec fn last_fill(seg: Seq<char>, d: char) -> char
    decreases seg.len(),
{
    if seg.len() == 0 {
        d
    } else if !is_width_digit(seg.last()) && !is_align_char(seg.last()) {
        seg.last()
    } else {
        last_fill(seg.drop_last(), d)
    }
}

/// The position just after the character at `e`, or the end of `s`.
pub open spec fn after(s: Seq<char>, e: int) -> int {
    if e < s.len() {
        e + 1
    } else {
        s.len() as int
    }
}

/// Reading the formatting that starts at `i`, over the defaults `base`:
/// the formatting and the position after its closing `}`.
pub open spec fn spec_parse_formatting(s: Seq<char>, i: int, base: Formatting) -> Result<
    (Formatting, int),
    FormatErrorView,
> {
    let e = format_end(s, i);
    let seg = s.subrange(i, e);
    let q = first_dot(seg);
    let pre = seg.take(q);
    let w = width_digits(pre);
    let p = if q < seg.len() { without_dots(seg.skip(q + 1)) } else { Seq::<char>::empty() };
    let width: Option<nat> = if w.len() == 0 { Some(base.width as nat) } else { parse_unsigned(w, usize::MAX as nat) };
    let precision: Option<nat> = if p.len() == 0 { Some(base.precision as nat) } else { parse_unsigned(p, usize::MAX as nat) };
    if width is None {
        Err(FormatErrorView::InvalidWidth(w))
    } else if precision is None {
        Err(FormatErrorView::InvalidPrecision(p))
    } else {
        Ok((
            Formatting {
                width: width.unwrap() as usize,
                fill: last_fill(pre, base.fill),
                align: last_align(pre, base.align),
                precision: precision.unwrap() as usize,
            },
            after(s, e),
        ))
    }
}

/// Reading the placeholder whose body starts at `i` (just after its `{`):
/// the part and the position after it.
pub open spec fn spec_parse_dynamic(s: Seq<char>, i: int) -> Result<(PartView, int), FormatErrorView> {
    let k = dynamic_end(s, i);
    let seg = s.subrange(i, k);
    let t = field(seg, DynamicMode::Token);
    let n = field(seg, DynamicMode::Name);
    let p = field(seg, DynamicMode::Prefix);
    match token_type_of_name(t) {
        None => Err(FormatErrorView::UnknownToken(t)),
        Some(tt) => {
            let function = match function_of_name(n) {
                Some(f) => f,
                None => default_function(tt),
            };
            let prefix = match prefix_of_name(p) {
                Some(x) => x,
                None => default_prefix(tt),
            };
            let base = default_formatting(tt);
            if k < s.len() && s[k] == ':' {
                match spec_parse_formatting(s, k + 1, base) {
                    Ok((f, j)) => Ok((
                        PartView::Token(TokenView { token: tt, function, prefix, formatting: f }),
                        j,
                    )),
                    Err(e) => Err(e),
                }
            } else {
                Ok((
                    PartView::Token(TokenView { token: tt, function, prefix, formatting: base }),
                    after(s, k),
                ))
            }
        }
    }
}

pub proof fn lemma_ends_bounded(s: Seq<char>, i: int)
    requires
        0 <= i <= s.len(),
    ensures
        i <= static_end(s, i) <= s.len(),
        i <= dynamic_end(s, i) <= s.len(),
        i <= format_end(s, i) <= s.len(),
    decreases s.len() - i,
{
    if i < s.len() {
        lemma_ends_bounded(s, i + 1);
    }
}

pub proof fn lemma_dynamic_advances(s: Seq<char>, i: int)
    requires
        0 <= i <= s.len(),
    ensures
        spec_parse_dynamic(s, i) matches Ok((_, j)) ==> i <= j <= s.len(),
{
    lemma_ends_bounded(s, i);
    let k = dynamic_end(s, i);
    if k < s.len() {
        lemma_ends_bounded(s, k + 1);
    }
}

/// Reading a whole format string from position `i` on.
pub open spec fn spec_parse_from(s: Seq<char>, i: int) -> Result<Seq<PartView>, FormatErrorView>
    decreases s.len() - i,
{
    if i < 0 || i >= s.len() {
        Ok(Seq::empty())
    } else if s[i] == '{' {
        proof {
            lemma_dynamic_advances(s, i + 1);
        }
        match spec_parse_dynamic(s, i + 1) {
            Err(e) => Err(e),
            Ok((part, j)) => match spec_parse_from(s, j) {
                Ok(rest) => Ok(seq![part] + rest),
                Err(e) => Err(e),
            },
        }
    } else {
        proof {
            lemma_ends_bounded(s, i + 1);
        }
        let j = static_end(s, i);
        match spec_parse_from(s, j) {
            Ok(rest) => Ok(seq![PartView::Static(s.subrange(i, j))] + rest),
            Err(e) => Err(e),
        }
    }
}

/// Reading a whole format string.
pub open spec fn spec_parse_input(s: Seq<char>) -> Result<Seq<PartView>, FormatErrorView> {
    spec_parse_from(s, 0)
}

/// With no `{` from `i` on, the literal text runs to the end.
proof fn lemma_static_to_end(s: Seq<char>, i: int)
    requires
        0 <= i <= s.len(),
        forall|k: int| 0 <= k < s.len() ==> s[k] != '{',
    ensures
        static_end(s, i) == s.len(),
    decreases s.len() - i,
{
    if i < s.len() {
        lemma_static_to_end(s, i + 1);
    }
}

/// Text with no `{` is one literal part holding all of it.
pub proof fn lemma_plain_text_is_static(s: Seq<char>)
    requires
        s.len() > 0,
        forall|k: int| 0 <= k < s.len() ==> s[k] != '{',
    ensures
        spec_parse_input(s) == Ok::<Seq<PartView>, FormatErrorView>(seq![PartView::Static(s)]),
{
    lemma_static_to_end(s, 0);
    lemma_ends_bounded(s, 1);
    assert(s.subrange(0, s.len() as int) =~= s);
    assert(spec_parse_from(s, s.len() as int) == Ok::<Seq<PartView>, FormatErrorView>(Seq::empty()));
    assert(seq![PartView::Static(s)] + Seq::<PartView>::empty() =~= seq![PartView::Static(s)]);
}

/// The views of a sequence of parts.
pub open spec fn parts_view(v: Seq<Part>) -> Seq<PartView> {
    v.map_values(|p: Part| p@)
}

/// Reads literal text from `pos` up to the next `{` or the end.
pub fn parse_static(chars: &Vec<char>, pos: usize) -> (r: (Part, usize))
    requires
        pos <= chars.len(),
    ensures
        r.1 == static_end(chars@, pos as int),
        r.0@ == PartView::Static(chars@.subrange(pos as int, r.1 as int)),
{
    let mut out: Vec<char> = Vec::new();
    let mut j = pos;
    while j < chars.len() && chars[j] != '{'
        invariant
            pos <= j <= chars.len(),
            static_end(chars@, j as int) == static_end(chars@, pos as int),
            out@ == chars@.subrange(pos as int, j as int),
        decreases chars.len() - j,
    {
        out.push(chars[j]);
        j = j + 1;
        assert(out@ =~= chars@.subrange(pos as int, j as int));
    }
    let text = string_of(&out);
    (Part::Static(text), j)
}

proof fn lemma_dynamic_step(seg: Seq<char>, c: char)
    ensures
        mode_after(seg.push(c)) == (if c == '@' { DynamicMode::Name } else if c == '#' {
            DynamicMode::Prefix
        } else {
            mode_after(seg)
        }),
        forall|m: DynamicMode| #[trigger] field(seg.push(c), m) == (if c != '@' && c != '#' && mode_after(seg) == m {
            field(seg, m).push(c)
        } else {
            field(seg, m)
        }),
{
    assert(seg.push(c).drop_last() =~= seg);
    assert forall|m: DynamicMode| #[trigger] field(seg.push(c), m) == (if c != '@' && c != '#' && mode_after(seg) == m {
        field(seg, m).push(c)
    } else {
        field(seg, m)
    }) by {
        assert(seg.push(c).drop_last() =~= seg);
    }
}

proof fn lemma_format_step(seg: Seq<char>, c: char, bf: char, ba: Alignment)
    ensures
        width_digits(seg.push(c)) == (if is_width_digit(c) { width_digits(seg).push(c) } else { width_digits(seg) }),
        without_dots(seg.push(c)) == (if c != '.' { without_dots(seg).push(c) } else { without_dots(seg) }),
        last_align(seg.push(c), ba) == (if is_align_char(c) { alignment_of_char(c).unwrap() } else { last_align(seg, ba) }),
        last_fill(seg.push(c), bf) == (if !is_width_digit(c) && !is_align_char(c) { c } else { last_fill(seg, bf) }),
        first_dot(seg.push(c)) == (if first_dot(seg) < seg.len() { first_dot(seg) } else if c == '.' { seg.len() as int } else { seg.len() + 1int }),
{
    assert(seg.push(c).drop_last() =~= seg);
}

proof fn lemma_first_dot_bounds(seg: Seq<char>)
    ensures
        0 <= first_dot(seg) <= seg.len(),
        first_dot(seg) < seg.len() ==> seg[first_dot(seg)] == '.',
    decreases seg.len(),
{
    if seg.len() > 0 {
        lemma_first_dot_bounds(seg.drop_last());
    }
}

/// Reads the formatting that starts at `pos`, over the defaults in
/// `formatting`, up to and including its closing `}`.
pub fn parse_formatting(chars: &Vec<char>, pos: usize, formatting: Formatting) -> (r: Result<
    (Formatting, usize),
    FormatError,
>)
    requires
        pos <= chars.len(),
    ensures
        match r {
            Ok((f, j)) => spec_parse_formatting(chars@, pos as int, formatting) == Ok::<
                (Formatting, int),
                FormatErrorView,
            >((f, j as int)),
            Err(e) => spec_parse_formatting(chars@, pos as int, formatting) == Err::<
                (Formatting, int),
                FormatErrorView,
            >(e@),
        },
{
    let ghost s = chars@;
    let mut width: Vec<char> = Vec::new();
    let mut precision: Vec<char> = Vec::new();
    let mut fill = formatting.fill;
    let mut align = formatting.align;
    let mut in_precision = false;
    let mut e = pos;
    assert(s.subrange(pos as int, pos as int) =~= Seq::<char>::empty());
    while e < chars.len() && chars[e] != '}'
        invariant
            pos <= e <= chars.len(),
            s == chars@,
            format_end(s, e as int) == format_end(s, pos as int),
            ({
                let seg = s.subrange(pos as int, e as int);
                let q = first_dot(seg);
                &&& in_precision == (q < seg.len())
                &&& width@ == width_digits(seg.take(q))
                &&& fill == last_fill(seg.take(q), formatting.fill)
                &&& align == last_align(seg.take(q), formatting.align)
                &&& precision@ == (if q < seg.len() { without_dots(seg.skip(q + 1)) } else { Seq::<char>::empty() })
            }),
        decreases chars.len() - e,
    {
        let c = chars[e];
        let ghost seg = s.subrange(pos as int, e as int);
        let ghost seg2 = s.subrange(pos as int, e + 1);
        proof {
            assert(seg2 =~= seg.push(c));
            lemma_format_step(seg, c, formatting.fill, formatting.align);
            lemma_first_dot_bounds(seg);
            let q = first_dot(seg);
            if q < seg.len() {
                assert(seg2.take(q) =~= seg.take(q));
                assert(seg2.skip(q + 1) =~= seg.skip(q + 1).push(c));
                lemma_format_step(seg.skip(q + 1), c, formatting.fill, formatting.align);
            } else {
                assert(seg.take(q) =~= seg);
                if c == '.' {
                    assert(seg2.take(seg.len() as int) =~= seg);
                    assert(seg2.skip(seg.len() + 1int) =~= Seq::<char>::empty());
                } else {
                    assert(seg2.take(seg2.len() as int) =~= seg2);
                }
            }
        }
        if c == '.' {
            in_precision = true;
        } else if in_precision {
            precision.push(c);
        } else if '1' <= c && c <= '9' {
            width.push(c);
        } else if c == '<' || c == '^' || c == '>' {
            align = match Alignment::try_from(c) {
                Ok(a) => a,
                Err(_) => align,
            };
        } else {
            fill = c;
        }
        e = e + 1;
    }
    let ghost seg = s.subrange(pos as int, e as int);
    proof {
        lemma_first_dot_bounds(seg);
    }
    let next = if e < chars.len() { e + 1 } else { e };
    let mut result = formatting;
    result.fill = fill;
    result.align = align;
    if width.len() > 0 {
        match parse_usize(&width) {
            Some(v) => {
                result.width = v;
            },
            None => {
                return Err(FormatError::InvalidWidth(string_of(&width)));
            },
        }
    }
    if precision.len() > 0 {
        match parse_usize(&precision) {
            Some(v) => {
                result.precision = v;
            },
            None => {
                return Err(FormatError::InvalidPrecision(string_of(&precision)));
            },
        }
    }
    Ok((result, next))
}

/// Reads the placeholder whose body starts at `pos` (just after its `{`).
pub fn parse_dynamic(chars: &Vec<char>, pos: usize) -> (r: Result<(Part, usize), FormatError>)
    requires
        pos <= chars.len(),
    ensures
        match r {
            Ok((p, j)) => spec_parse_dynamic(chars@, pos as int) == Ok::<(PartView, int), FormatErrorView>((p@, j as int)),
            Err(e) => spec_parse_dynamic(chars@, pos as int) == Err::<(PartView, int), FormatErrorView>(e@),
        },
{
    let ghost s = chars@;
    let mut mode = DynamicMode::Token;
    let mut token_chars: Vec<char> = Vec::new();
    let mut func_chars: Vec<char> = Vec::new();
    let mut prefix_chars: Vec<char> = Vec::new();
    let mut k = pos;
    assert(s.subrange(pos as int, pos as int) =~= Seq::<char>::empty());
    while k < chars.len() && chars[k] != '}' && chars[k] != ':'
        invariant
            pos <= k <= chars.len(),
            s == chars@,
            dynamic_end(s, k as int) == dynamic_end(s, pos as int),
            mode == mode_after(s.subrange(pos as int, k as int)),
            token_chars@ == field(s.subrange(pos as int, k as int), DynamicMode::Token),
            func_chars@ == field(s.subrange(pos as int, k as int), DynamicMode::Name),
            prefix_chars@ == field(s.subrange(pos as int, k as int), DynamicMode::Prefix),
        decreases chars.len() - k,
    {
        let c = chars[k];
        proof {
            let seg = s.subrange(pos as int, k as int);
            assert(s.subrange(pos as int, k + 1) =~= seg.push(c));
            lemma_dynamic_step(seg, c);
            assert(field(seg.push(c), DynamicMode::Token) == field(seg.push(c), DynamicMode::Token));
            assert(field(seg.push(c), DynamicMode::Name) == field(seg.push(c), DynamicMode::Name));
            assert(field(seg.push(c), DynamicMode::Prefix) == field(seg.push(c), DynamicMode::Prefix));
        }
        if c == '@' {
            mode = DynamicMode::Name;
        } else if c == '#' {
            mode = DynamicMode::Prefix;
        } else {
            match mode {
                DynamicMode::Token => token_chars.push(c),
                DynamicMode::Name => func_chars.push(c),
                DynamicMode::Prefix => prefix_chars.push(c),
            }
        }
        k = k + 1;
    }
    let token_str = string_of(&token_chars);
    let func_str = string_of(&func_chars);
    let prefix_str = string_of(&prefix_chars);
    let token_type = match TokenType::from_str(token_str.as_str()) {
        Ok(t) => t,
        Err(e) => {
            return Err(e);
        },
    };
    let function = match Function::from_str(func_str.as_str()) {
        Ok(f) => f,
        Err(()) => Function::default_for(token_type),
    };
    let prefix = match Prefix::from_str(prefix_str.as_str()) {
        Ok(p) => p,
        Err(_) => Prefix::default_for(token_type),
    };
    let base = Formatting::default_for(token_type);
    if k < chars.len() && chars[k] == ':' {
        match parse_formatting(chars, k + 1, base) {
            Ok((formatting, j)) => Ok((
                Part::Token(Token { token: token_type, function, prefix, formatting }),
                j,
            )),
            Err(e) => Err(e),
        }
    } else {
        let next = if k < chars.len() { k + 1 } else { k };
        Ok((Part::Token(Token { token: token_type, function, prefix, formatting: base }), next))
    }
}

/// Reads a whole format string into its literal and placeholder parts.
pub fn parse_input(input: &str) -> (r: Result<Vec<Part>, FormatError>)
    ensures
        match r {
            Ok(v) => spec_parse_input(input@) == Ok::<Seq<PartView>, FormatErrorView>(parts_view(v@)),
            Err(e) => spec_parse_input(input@) == Err::<Seq<PartView>, FormatErrorView>(e@),
        },
{
    let chars = crate::text::chars_of(input);
    let ghost s = chars@;
    let mut tokens: Vec<Part> = Vec::new();
    let mut i: usize = 0;
    while i < chars.len()
        invariant
            i <= chars.len(),
            s == chars@,
            s == input@,
            match spec_parse_from(s, i as int) {
                Ok(rest) => spec_parse_input(s) == Ok::<Seq<PartView>, FormatErrorView>(parts_view(tokens@) + rest),
                Err(e) => spec_parse_input(s) == Err::<Seq<PartView>, FormatErrorView>(e),
            },
        decreases chars.len() - i,
    {
        let ghost old_tokens = tokens@;
        let ghost i0 = i as int;
        if chars[i] == '{' {
            proof {
                lemma_dynamic_advances(s, i + 1);
            }
            match parse_dynamic(&chars, i + 1) {
                Ok((part, j)) => {
                    tokens.push(part);
                    i = j;
                },
                Err(e) => {
                    return Err(e);
                },
            }
        } else {
            proof {
                lemma_ends_bounded(s, i + 1);
            }
            let (part, j) = parse_static(&chars, i);
            tokens.push(part);
            i = j;
        }
        proof {
            let pv = tokens@.last()@;
            assert(parts_view(tokens@) =~= parts_view(old_tokens) + seq![pv]);
            assert(spec_parse_from(s, i0) == match spec_parse_from(s, i as int) {
                Ok(rest) => Ok::<Seq<PartView>, FormatErrorView>(seq![pv] + rest),
                Err(e) => Err(e),
            });
            match spec_parse_from(s, i as int) {
                Ok(rest) => {
                    assert(parts_view(old_tokens) + (seq![pv] + rest) =~= parts_view(tokens@) + rest);
                },
                Err(e) => {},
            }
        }
    }
    assert(spec_parse_from(s, i as int) == Ok::<Seq<PartView>, FormatErrorView>(Seq::empty()));
    assert(parts_view(tokens@) + Seq::<PartView>::empty() =~= parts_view(tokens@));
    Ok(tokens)
}


/// A character a value's name is made of.
pub open spec fn is_name_char(c: char) -> bool {
    ('a' <= c && c <= 'z') || ('0' <= c && c <= '9') || c == '_'
}

/// The names of the values are plain words.
proof fn lemma_token_names_plain(s: Seq<char>)
    requires
        token_type_of_name(s) is Some,
    ensures
        s.len() > 0,
        forall|k: int| 0 <= k < s.len() ==> is_name_char(#[trigger] s[k]),
{
    if s == "cpu_frequency"@ {
        reveal_strlit("cpu_frequency");
    } else if s == "cpu_percent"@ {
        reveal_strlit("cpu_percent");
    } else if s == "memory_free"@ {
        reveal_strlit("memory_free");
    } else if s == "memory_available"@ {
        reveal_strlit("memory_available");
    } else if s == "memory_total"@ {
        reveal_strlit("memory_total");
    } else if s == "memory_used"@ {
        reveal_strlit("memory_used");
    } else if s == "memory_percent"@ {
        reveal_strlit("memory_percent");
    } else if s == "swap_free"@ {
        reveal_strlit("swap_free");
    } else if s == "swap_total"@ {
        reveal_strlit("swap_total");
    } else if s == "swap_used"@ {
        reveal_strlit("swap_used");
    } else if s == "swap_percent"@ {
        reveal_strlit("swap_percent");
    } else if s == "temp_c"@ {
        reveal_strlit("temp_c");
    } else if s == "temp_f"@ {
        reveal_strlit("temp_f");
    } else if s == "disk_free"@ {
        reveal_strlit("disk_free");
    } else if s == "disk_total"@ {
        reveal_strlit("disk_total");
    } else if s == "disk_used"@ {
        reveal_strlit("disk_used");
    } else if s == "disk_percent"@ {
        reveal_strlit("disk_percent");
    } else if s == "disk_read"@ {
        reveal_strlit("disk_read");
    } else if s == "disk_write"@ {
        reveal_strlit("disk_write");
    } else if s == "net_down"@ {
        reveal_strlit("net_down");
    } else if s == "net_up"@ {
        reveal_strlit("net_up");
    } else if s == "load_average_1"@ {
        reveal_strlit("load_average_1");
    } else if s == "load_average_5"@ {
        reveal_strlit("load_average_5");
    } else if s == "load_average_15"@ {
        reveal_strlit("load_average_15");
    } else if s == "uptime"@ {
        reveal_strlit("uptime");
    }
    assert(s.len() > 0);
    assert forall|k: int| 0 <= k < s.len() implies is_name_char(#[trigger] s[k]) by {}
}

/// Reading a placeholder body made of name characters stops at the `}`.
proof fn lemma_dynamic_end_name(w: Seq<char>, i: int, n: int)
    requires
        w.len() == n + 2,
        1 <= i <= n + 1,
        forall|k: int| 1 <= k <= n ==> is_name_char(#[trigger] w[k]),
        w[n + 1] == '}',
    ensures
        dynamic_end(w, i) == n + 1,
    decreases n + 1 - i,
{
    if i <= n {
        assert(is_name_char(w[i]));
        lemma_dynamic_end_name(w, i + 1, n);
    }
}

/// A body made of name characters is all name: no function or prefix.
proof fn lemma_fields_of_name(seg: Seq<char>)
    requires
        forall|k: int| 0 <= k < seg.len() ==> is_name_char(#[trigger] seg[k]),
    ensures
        mode_after(seg) == DynamicMode::Token,
        field(seg, DynamicMode::Token) == seg,
        field(seg, DynamicMode::Name) == Seq::<char>::empty(),
        field(seg, DynamicMode::Prefix) == Seq::<char>::empty(),
    decreases seg.len(),
{
    if seg.len() > 0 {
        let prev = seg.drop_last();
        assert forall|k: int| 0 <= k < prev.len() implies is_name_char(#[trigger] prev[k]) by {
            assert(prev[k] == seg[k]);
        }
        lemma_fields_of_name(prev);
        assert(is_name_char(seg[seg.len() - 1]));
        assert(prev.push(seg.last()) =~= seg);
    }
}

/// The format `{name}` for a value's name reads as that one placeholder,
/// with the value's default function, prefix and formatting.
proof fn lemma_single_placeholder(s: Seq<char>)
    requires
        token_type_of_name(s) is Some,
    ensures
        ({
            let tt = token_type_of_name(s).unwrap();
            spec_parse_input(seq!['{'] + s + seq!['}']) == Ok::<Seq<PartView>, FormatErrorView>(seq![
                PartView::Token(TokenView {
                    token: tt,
                    function: default_function(tt),
                    prefix: default_prefix(tt),
                    formatting: default_formatting(tt),
                }),
            ])
        }),
{
    lemma_token_names_plain(s);
    let w = seq!['{'] + s + seq!['}'];
    let n = s.len() as int;
    assert(w.len() == n + 2);
    assert(w[0] == '{');
    assert(w[n + 1] == '}');
    assert forall|k: int| 1 <= k <= n implies is_name_char(#[trigger] w[k]) by {
        assert(w[k] == s[k - 1]);
    }
    lemma_dynamic_end_name(w, 1, n);
    assert(w.subrange(1, n + 1) =~= s);
    lemma_fields_of_name(s);
    reveal_strlit("sum");
    reveal_strlit("min");
    reveal_strlit("max");
    reveal_strlit("mean");
    reveal_strlit("k");
    reveal_strlit("M");
    reveal_strlit("G");
    reveal_strlit("T");
    reveal_strlit("P");
    reveal_strlit("ki");
    reveal_strlit("Mi");
    reveal_strlit("Gi");
    reveal_strlit("Ti");
    reveal_strlit("Pi");
    reveal_strlit("kb");
    reveal_strlit("Mb");
    reveal_strlit("Gb");
    assert(function_of_name(Seq::<char>::empty()) is None);
    assert(prefix_of_name(Seq::<char>::empty()) is None);
    lemma_dynamic_advances(w, 1);
    assert(spec_parse_from(w, n + 2) == Ok::<Seq<PartView>, FormatErrorView>(Seq::empty()));
    let tt = token_type_of_name(s).unwrap();
    let part = PartView::Token(TokenView {
        token: tt,
        function: default_function(tt),
        prefix: default_prefix(tt),
        formatting: default_formatting(tt),
    });
    assert(spec_parse_dynamic(w, 1) == Ok::<(PartView, int), FormatErrorView>((part, n + 2)));
    assert(seq![part] + Seq::<PartView>::empty() =~= seq![part]);
}

/// With no function given, a placeholder's values from several sources
/// are averaged for the cpu frequency, cpu percentage, temperature in
/// Celsius and disk percentage; added up for the disk free, total, used,
/// read and write values and the network down and up rates; and not
/// combined for any other value.
pub proof fn lemma_default_functions(s: Seq<char>)
    requires
        token_type_of_name(s) is Some,
    ensures
        ({
            let r = spec_parse_input(seq!['{'] + s + seq!['}']);
            let t = r->Ok_0[0]->Token_0;
            &&& r is Ok
            &&& r->Ok_0.len() == 1
            &&& r->Ok_0[0] is Token
            &&& t.token == token_type_of_name(s).unwrap()
            &&& if s == "cpu_frequency"@ || s == "cpu_percent"@ || s == "temp_c"@ || s == "disk_percent"@ {
                t.function == FunctionView::Mean
            } else if s == "disk_free"@ || s == "disk_total"@ || s == "disk_used"@ || s == "disk_read"@
                || s == "disk_write"@ || s == "net_down"@ || s == "net_up"@ {
                t.function == FunctionView::Sum
            } else {
                t.function == FunctionView::NoFunction
            }
        }),
{
    lemma_single_placeholder(s);
    reveal_strlit("cpu_frequency");
    reveal_strlit("cpu_percent");
    reveal_strlit("memory_free");
    reveal_strlit("memory_available");
    reveal_strlit("memory_total");
    reveal_strlit("memory_used");
    reveal_strlit("memory_percent");
    reveal_strlit("swap_free");
    reveal_strlit("swap_total");
    reveal_strlit("swap_used");
    reveal_strlit("swap_percent");
    reveal_strlit("temp_c");
    reveal_strlit("temp_f");
    reveal_strlit("disk_free");
    reveal_strlit("disk_total");
    reveal_strlit("disk_used");
    reveal_strlit("disk_percent");
    reveal_strlit("disk_read");
    reveal_strlit("disk_write");
    reveal_strlit("net_down");
    reveal_strlit("net_up");
    reveal_strlit("load_average_1");
    reveal_strlit("load_average_5");
    reveal_strlit("load_average_15");
    reveal_strlit("uptime");
}


/// With no prefix given, a placeholder shows gigabytes (gigahertz for the
/// cpu frequency) for the cpu frequency and the memory, swap and disk free,
/// available, total and used amounts; megabytes for disk reads and writes;
/// megabits for the network rates; and no prefix for any other value.
pub proof fn lemma_default_prefixes(s: Seq<char>)
    requires
        token_type_of_name(s) is Some,
    ensures
        ({
            let r = spec_parse_input(seq!['{'] + s + seq!['}']);
            let t = r->Ok_0[0]->Token_0;
            &&& r is Ok
            &&& r->Ok_0.len() == 1
            &&& r->Ok_0[0] is Token
            &&& if s == "cpu_frequency"@ || s == "memory_free"@ || s == "memory_available"@ || s == "memory_total"@ || s == "memory_used"@ || s == "swap_free"@ || s == "swap_total"@ || s == "swap_used"@ || s == "disk_free"@ || s == "disk_total"@ || s == "disk_used"@ {
                t.prefix == Prefix::Giga
            } else if s == "disk_read"@ || s == "disk_write"@ {
                t.prefix == Prefix::Mega
            } else if s == "net_down"@ || s == "net_up"@ {
                t.prefix == Prefix::MegaBit
            } else {
                t.prefix == Prefix::NoPrefix
            }
        }),
{
    lemma_single_placeholder(s);
    reveal_strlit("cpu_frequency");
    reveal_strlit("cpu_percent");
    reveal_strlit("memory_free");
    reveal_strlit("memory_available");
    reveal_strlit("memory_total");
    reveal_strlit("memory_used");
    reveal_strlit("memory_percent");
    reveal_strlit("swap_free");
    reveal_strlit("swap_total");
    reveal_strlit("swap_used");
    reveal_strlit("swap_percent");
    reveal_strlit("temp_c");
    reveal_strlit("temp_f");
    reveal_strlit("disk_free");
    reveal_strlit("disk_total");
    reveal_strlit("disk_used");
    reveal_strlit("disk_percent");
    reveal_strlit("disk_read");
    reveal_strlit("disk_write");
    reveal_strlit("net_down");
    reveal_strlit("net_up");
    reveal_strlit("load_average_1");
    reveal_strlit("load_average_5");
    reveal_strlit("load_average_15");
    reveal_strlit("uptime");
}

} // verus!

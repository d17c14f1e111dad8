//! Clock module logic: which formats need a per-second refresh, how long
//! to sleep until the next tick, and the locale name from the environment.
use vstd::prelude::*;

use crate::text::{chars_of, string_of};

verus! {

/// The first position at or after `i` holding `c`, or the end of `s`.
pub open spec fn next_char_pos(s: Seq<char>, i: int, c: char) -> int
    decreases s.len() - i,
{
    if i >= s.len() {
        s.len() as int
    } else if s[i] == c {
        i
    } else {
        next_char_pos(s, i + 1, c)
    }
}

/// A flag or width character that may sit between `%` and the specifier.
pub open spec fn is_spec_modifier(c: char) -> bool {
    ('0' <= c && c <= '9') || c == '-' || c == '_' || c == '.'
}

/// A specifier whose rendering changes within a minute.
pub open spec fn is_second_specifier(c: char) -> bool {
    c == 'S' || c == 'T' || c == 'X' || c == 'r' || c == 's' || c == 'c' || c == '+' || c == 'f'
}

/// The first position at or after `i` that is not a modifier, or the end.
pub open spec fn next_specifier_pos(s: Seq<char>, i: int) -> int
    decreases s.len() - i,
{
    if i >= s.len() {
        s.len() as int
    } else if !is_spec_modifier(s[i]) {
        i
    } else {
        next_specifier_pos(s, i + 1)
    }
}

pub proof fn lemma_next_positions(s: Seq<char>, i: int, c: char)
    requires
        0 <= i <= s.len(),
    ensures
        i <= next_char_pos(s, i, c) <= s.len(),
        i <= next_specifier_pos(s, i) <= s.len(),
        next_char_pos(s, i, c) < s.len() ==> s[next_char_pos(s, i, c)] == c,
        next_specifier_pos(s, i) < s.len() ==> !is_spec_modifier(s[next_specifier_pos(s, i)]),
    decreases s.len() - i,
{
    if i < s.len() {
        lemma_next_positions(s, i + 1, c);
    }
}

/// Whether the strftime template `s`, read from `i` on, holds a specifier
/// that changes within a minute.  Each `%` starts a specifier: modifiers
/// are skipped and the next character is the specifier, which is consumed
/// (so `%%` is a literal percent sign).  A `%` with no specifier after it
/// ends the template.
pub open spec fn needs_seconds_from(s: Seq<char>, i: int) -> bool
    decreases s.len() - i,
{
    if i < 0 || i >= s.len() {
        false
    } else {
        let p = next_char_pos(s, i, '%');
        if p >= s.len() {
            false
        } else {
            proof {
                lemma_next_positions(s, i, '%');
                lemma_next_positions(s, p + 1, '%');
            }
            let q = next_specifier_pos(s, p + 1);
            if q >= s.len() {
                false
            } else if is_second_specifier(s[q]) {
                true
            } else {
                needs_seconds_from(s, q + 1)
            }
        }
    }
}

fn find_char(s: &Vec<char>, i: usize, c: char) -> (r: usize)
    requires
        i <= s.len(),
    ensures
        r == next_char_pos(s@, i as int, c),
{
    let mut j = i;
    while j < s.len() && s[j] != c
        invariant
            i <= j <= s.len(),
            next_char_pos(s@, j as int, c) == next_char_pos(s@, i as int, c),
        decreases s.len() - j,
    {
        j = j + 1;
    }
    j
}

fn find_specifier(s: &Vec<char>, i: usize) -> (r: usize)
    requires
        i <= s.len(),
    ensures
        r == next_specifier_pos(s@, i as int),
{
    let mut j = i;
    while j < s.len() && (('0' <= s[j] && s[j] <= '9') || s[j] == '-' || s[j] == '_' || s[j] == '.')
        invariant
            i <= j <= s.len(),
            next_specifier_pos(s@, j as int) == next_specifier_pos(s@, i as int),
        decreases s.len() - j,
    {
        j = j + 1;
    }
    j
}

/// Returns true if `format` (a chrono strftime template) contains any
/// specifier whose rendered value changes within a minute.
pub fn format_needs_second_precision(format: &str) -> (r: bool)
    ensures
        r == needs_seconds_from(format@, 0),
{
    let s = chars_of(format);
    let mut i: usize = 0;
    while i < s.len()
        invariant
            i <= s.len(),
            s@ == format@,
            needs_seconds_from(s@, i as int) == needs_seconds_from(s@, 0),
        decreases s.len() - i,
    {
        proof {
            lemma_next_positions(s@, i as int, '%');
        }
        let p = find_char(&s, i, '%');
        if p >= s.len() {
            return false;
        }
        proof {
            lemma_next_positions(s@, p + 1, '%');
        }
        let q = find_specifier(&s, p + 1);
        if q >= s.len() {
            return false;
        }
        let c = s[q];
        if c == 'S' || c == 'T' || c == 'X' || c == 'r' || c == 's' || c == 'c' || c == '+' || c == 'f' {
            return true;
        }
        i = q + 1;
    }
    false
}

/// The milliseconds to wait until just past the next refresh boundary
/// (the next second, or the next minute), given the current second of
/// the minute and the milliseconds into the current second.
pub fn millis_to_next_tick(needs_seconds: bool, second: u32, subsec_millis: u32) -> (r: u64)
    requires
        second < 60,
        subsec_millis < 1000,
    ensures
        r == (if needs_seconds { 1000 - subsec_millis } else { 60 * 1000 - second * 1000 - subsec_millis }) + 10,
{
    let sub = subsec_millis as u64;
    let to_next = if needs_seconds {
        1000 - sub
    } else {
        60 * 1000 - (second as u64) * 1000 - sub
    };
    to_next + 10
}

/// `s` up to its first `.`, or all of `s` when it has none.
pub open spec fn spec_strip_tail(s: Seq<char>) -> Seq<char> {
    s.take(next_char_pos(s, 0, '.'))
}

/// Drops a locale's encoding suffix: `en_GB.UTF-8` becomes `en_GB`.
pub fn strip_tail(string: String) -> (r: String)
    ensures
        r@ == spec_strip_tail(string@),
{
    let s = chars_of(string.as_str());
    proof {
        lemma_next_positions(s@, 0, '.');
    }
    let p = find_char(&s, 0, '.');
    let mut out: Vec<char> = Vec::new();
    let mut k: usize = 0;
    while k < p
        invariant
            p <= s.len(),
            k <= p,
            out@ == s@.take(k as int),
        decreases p - k,
    {
        out.push(s[k]);
        k = k + 1;
        assert(out@ =~= s@.take(k as int));
    }
    string_of(&out)
}

} // verus!

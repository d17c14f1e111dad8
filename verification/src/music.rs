//! The music module: the text shown for the playing track, and what the
//! bar button and the popup controls show for a player status.
use vstd::prelude::*;

use crate::decimal::{all_digits, dec, dec2, lemma_dec_reads_back, u64_to_chars, u64_to_chars2};
use crate::text::{
    append_chars, chars_of, contains_chars, contains_seq, lemma_replace_absent, occurs_at, replace_all,
    replace_chars, str_eq, string_of,
};

verus! {

/// Which kind of player to follow.
#[derive(Debug, Clone, Copy, PartialEq, Eq, Structural)]
pub enum PlayerType {
    Mpd,
    Mpris,
}

impl PlayerType {
    /// The player followed when the configuration names none.
    pub fn default() -> (r: PlayerType)
        ensures
            r == PlayerType::Mpris,
    {
        PlayerType::Mpris
    }
}

/// Whether the player plays.
#[derive(Debug, Clone, Copy, PartialEq, Eq, Structural)]
pub enum PlayerState {
    Playing,
    Paused,
    Stopped,
}

/// A player's status.
#[derive(Debug, Clone, Copy, PartialEq, Eq, Structural)]
pub struct Status {
    pub state: PlayerState,
    pub volume_percent: Option<u8>,
    pub playlist_position: u32,
    pub playlist_length: u32,
}

/// The track being played.
#[derive(Debug, Clone, Default)]
pub struct Track {
    pub title: Option<String>,
    pub album: Option<String>,
    pub artist: Option<String>,
    pub date: Option<String>,
    pub disc: Option<u64>,
    pub genre: Option<String>,
    pub track: Option<u64>,
    pub cover_path: Option<String>,
}

/// Formats a duration given in seconds as `MM:SS`, or `H:MM:SS` when it
/// has hours.
pub open spec fn spec_format_time(secs: nat) -> Seq<char> {
    let hours = secs / 3600;
    let minutes = (secs / 60) % 60;
    let seconds = secs % 60;
    if hours > 0 {
        dec(hours) + seq![':'] + dec2(minutes) + seq![':'] + dec2(seconds)
    } else {
        dec2(minutes) + seq![':'] + dec2(seconds)
    }
}

/// Formats a duration given in seconds.
pub fn format_time(secs: u64) -> (r: String)
    ensures
        r@ == spec_format_time(secs as nat),
{
    let hours = secs / (60 * 60);
    let minutes = (secs / 60) % 60;
    let seconds = secs % 60;
    let mut out: Vec<char> = Vec::new();
    if hours > 0 {
        let h = u64_to_chars(hours);
        append_chars(&mut out, &h);
        out.push(':');
    }
    let m = u64_to_chars2(minutes);
    append_chars(&mut out, &m);
    out.push(':');
    let s = u64_to_chars2(seconds);
    append_chars(&mut out, &s);
    proof {
        if hours > 0 {
            assert(out@ =~= dec(hours as nat) + seq![':'] + dec2(minutes as nat) + seq![':'] + dec2(seconds as nat));
        } else {
            assert(out@ =~= dec2(minutes as nat) + seq![':'] + dec2(seconds as nat));
        }
    }
    string_of(&out)
}

/// `s` with `from` replaced by `to` when it occurs (the text is copied only
/// when there is something to replace).
pub fn replace_with(s: &Vec<char>, from: &Vec<char>, to: &Vec<char>) -> (r: Vec<char>)
    ensures
        r@ == replace_all(s@, from@, to@),
{
    if contains_chars(s, from) {
        replace_chars(s, from, to)
    } else {
        proof {
            if from@.len() == 0 {
                assert(s@.subrange(0, 0) =~= from@);
                assert(crate::text::occurs_at(s@, from@, 0));
            }
            lemma_replace_absent(s@, from@, to@);
        }
        s.clone()
    }
}

/// The text of an optional string, empty when absent.
pub open spec fn text_or_empty(o: Option<String>) -> Seq<char> {
    match o {
        Some(s) => s@,
        None => Seq::empty(),
    }
}

/// The decimal text of an optional number, empty when absent.
pub open spec fn number_or_empty(o: Option<u64>) -> Seq<char> {
    match o {
        Some(n) => dec(n as nat),
        None => Seq::empty(),
    }
}

/// The format with each of `{title}`, `{album}`, `{artist}`, `{date}`,
/// `{disc}`, `{genre}` and `{track}` replaced, in that order, by the
/// track's value (empty when unknown).
pub open spec fn spec_replace_tokens(format: Seq<char>, song: Track) -> Seq<char> {
    let a = replace_all(format, "{title}"@, text_or_empty(song.title));
    let b = replace_all(a, "{album}"@, text_or_empty(song.album));
    let c = replace_all(b, "{artist}"@, text_or_empty(song.artist));
    let d = replace_all(c, "{date}"@, text_or_empty(song.date));
    let e = replace_all(d, "{disc}"@, number_or_empty(song.disc));
    let f = replace_all(e, "{genre}"@, text_or_empty(song.genre));
    replace_all(f, "{track}"@, number_or_empty(song.track))
}

fn text_chars(o: &Option<String>) -> (r: Vec<char>)
    ensures
        r@ == text_or_empty(*o),
{
    match o {
        Some(s) => chars_of(s.as_str()),
        None => Vec::new(),
    }
}

fn number_chars(o: Option<u64>) -> (r: Vec<char>)
    ensures
        r@ == number_or_empty(o),
{
    match o {
        Some(n) => u64_to_chars(n),
        None => Vec::new(),
    }
}

fn replace_token(s: &Vec<char>, token: &str, value: &Vec<char>) -> (r: Vec<char>)
    requires
        token@.len() > 0,
    ensures
        r@ == replace_all(s@, token@, value@),
{
    let t = chars_of(token);
    replace_with(s, &t, value)
}

/// Replaces each of the formatting tokens in the formatting string
/// with actual data pulled from the music player.
pub fn replace_tokens(format_string: &str, song: &Track) -> (r: String)
    ensures
        r@ == spec_replace_tokens(format_string@, *song),
{
    proof {
        reveal_strlit("{title}");
        reveal_strlit("{album}");
        reveal_strlit("{artist}");
        reveal_strlit("{date}");
        reveal_strlit("{disc}");
        reveal_strlit("{genre}");
        reveal_strlit("{track}");
    }
    let s0 = chars_of(format_string);
    let s1 = replace_token(&s0, "{title}", &text_chars(&song.title));
    let s2 = replace_token(&s1, "{album}", &text_chars(&song.album));
    let s3 = replace_token(&s2, "{artist}", &text_chars(&song.artist));
    let s4 = replace_token(&s3, "{date}", &text_chars(&song.date));
    let s5 = replace_token(&s4, "{disc}", &number_chars(song.disc));
    let s6 = replace_token(&s5, "{genre}", &text_chars(&song.genre));
    let s7 = replace_token(&s6, "{track}", &number_chars(song.track));
    string_of(&s7)
}

/// The text holds no `{`.
pub open spec fn no_brace(s: Seq<char>) -> bool {
    forall|k: int| 0 <= k < s.len() ==> s[k] != '{'
}

/// A token: `{`, then characters that are no braces, then `}`.
pub open spec fn is_token(t: Seq<char>) -> bool {
    &&& t.len() >= 2
    &&& t[0] == '{'
    &&& t[t.len() - 1] == '}'
    &&& forall|k: int| 1 <= k < t.len() - 1 ==> t[k] != '{' && t[k] != '}'
}

/// A token does not occur in a text without braces.
proof fn lemma_no_brace_unchanged(s: Seq<char>, pat: Seq<char>, t: Seq<char>)
    requires
        no_brace(s),
        is_token(pat),
    ensures
        replace_all(s, pat, t) == s,
{
    assert forall|i: int| !occurs_at(s, pat, i) by {
        if occurs_at(s, pat, i) {
            assert(s.subrange(i, i + pat.len())[0] == s[i]);
        }
    }
    lemma_replace_absent(s, pat, t);
}

/// In `p`, `tok`, `q` with no brace in `p` and `q`, the token `pat`
/// occurs only when it is `tok`, and then only there.
proof fn lemma_fill_one(p: Seq<char>, tok: Seq<char>, q: Seq<char>, pat: Seq<char>, t: Seq<char>)
    requires
        no_brace(p),
        no_brace(q),
        is_token(tok),
        is_token(pat),
    ensures
        replace_all(p + tok + q, pat, t) == if pat == tok { p + t + q } else { p + tok + q },
    decreases p.len(),
{
    let w = p + tok + q;
    if p.len() > 0 {
        lemma_fill_one(p.drop_first(), tok, q, pat, t);
        assert(w.drop_first() =~= p.drop_first() + tok + q);
        assert(w[0] == p[0]);
        if w.len() >= pat.len() {
            assert(w.take(pat.len() as int)[0] != pat[0]);
        }
        assert(seq![p[0]] + (p.drop_first() + t + q) =~= p + t + q);
        assert(seq![p[0]] + (p.drop_first() + tok + q) =~= w);
    } else {
        assert(w =~= tok + q);
        if pat == tok {
            assert(w.take(pat.len() as int) =~= tok);
            assert(w.skip(pat.len() as int) =~= q);
            lemma_no_brace_unchanged(q, pat, t);
            assert(p + t + q =~= t + q);
        } else {
            assert forall|i: int| !occurs_at(w, pat, i) by {
                if occurs_at(w, pat, i) {
                    let m = w.subrange(i, i + pat.len());
                    assert(m[0] == w[i]);
                    if i > 0 {
                        if i < tok.len() {
                            assert(w[i] == tok[i]);
                        } else {
                            assert(w[i] == q[i - tok.len()]);
                        }
                    }
                    assert(i == 0);
                    if pat.len() <= tok.len() {
                        assert(m[pat.len() - 1] == tok[pat.len() - 1]);
                        assert(pat.len() == tok.len());
                        assert(pat =~= tok);
                    } else {
                        assert(m[tok.len() - 1] == tok[tok.len() - 1]);
                    }
                }
            }
            lemma_replace_absent(w, pat, t);
        }
    }
}

/// A number's text holds no brace.
proof fn lemma_number_no_brace(o: Option<u64>)
    ensures
        no_brace(number_or_empty(o)),
{
    if let Some(n) = o {
        lemma_dec_reads_back(n as nat);
        assert forall|k: int| 0 <= k < dec(n as nat).len() implies dec(n as nat)[k] != '{' by {
            assert(all_digits(dec(n as nat)));
        }
    }
}

/// The text of an optional string, as the laws below write it.
pub open spec fn or_empty_text(o: Option<String>) -> Seq<char> {
    match o {
        Some(s) => s@,
        None => Seq::empty(),
    }
}

/// Filling a format that holds one token between brace-free texts gives
/// that token's value of the track in its place (empty when unknown), and
/// nothing else changes: the title for `{title}`, the album for `{album}`,
/// the artist for `{artist}`, the date for `{date}`, the disc number for
/// `{disc}`, the genre for `{genre}` and the track number for `{track}`.
/// The track's texts are taken to hold no brace, so they cannot themselves
/// look like tokens.
pub proof fn lemma_single_token_filled(p: Seq<char>, q: Seq<char>, song: Track)
    requires
        no_brace(p),
        no_brace(q),
        no_brace(or_empty_text(song.title)),
        no_brace(or_empty_text(song.album)),
        no_brace(or_empty_text(song.artist)),
        no_brace(or_empty_text(song.date)),
        no_brace(or_empty_text(song.genre)),
    ensures
        spec_replace_tokens(p + "{title}"@ + q, song) == p + or_empty_text(song.title) + q,
        spec_replace_tokens(p + "{album}"@ + q, song) == p + or_empty_text(song.album) + q,
        spec_replace_tokens(p + "{artist}"@ + q, song) == p + or_empty_text(song.artist) + q,
        spec_replace_tokens(p + "{date}"@ + q, song) == p + or_empty_text(song.date) + q,
        spec_replace_tokens(p + "{disc}"@ + q, song) == p + match song.disc {
            Some(n) => dec(n as nat),
            None => Seq::<char>::empty(),
        } + q,
        spec_replace_tokens(p + "{genre}"@ + q, song) == p + or_empty_text(song.genre) + q,
        spec_replace_tokens(p + "{track}"@ + q, song) == p + match song.track {
            Some(n) => dec(n as nat),
            None => Seq::<char>::empty(),
        } + q,
{
    reveal_strlit("{title}");
    reveal_strlit("{album}");
    reveal_strlit("{artist}");
    reveal_strlit("{date}");
    reveal_strlit("{disc}");
    reveal_strlit("{genre}");
    reveal_strlit("{track}");
    lemma_number_no_brace(song.disc);
    lemma_number_no_brace(song.track);
    let toks = seq!["{title}"@, "{album}"@, "{artist}"@, "{date}"@, "{disc}"@, "{genre}"@, "{track}"@];
    let vals = seq![
        text_or_empty(song.title),
        text_or_empty(song.album),
        text_or_empty(song.artist),
        text_or_empty(song.date),
        number_or_empty(song.disc),
        text_or_empty(song.genre),
        number_or_empty(song.track),
    ];
    assert forall|j: int| 0 <= j < 7 implies is_token(#[trigger] toks[j]) by {}
    assert(toks[0][1] != toks[1][1]);
    assert(toks[0].len() != toks[2].len());
    assert(toks[0].len() != toks[3].len());
    assert(toks[0].len() != toks[4].len());
    assert(toks[0][1] != toks[5][1]);
    assert(toks[0][2] != toks[6][2]);
    assert(toks[1].len() != toks[2].len());
    assert(toks[1].len() != toks[3].len());
    assert(toks[1].len() != toks[4].len());
    assert(toks[1][1] != toks[5][1]);
    assert(toks[1][1] != toks[6][1]);
    assert(toks[2].len() != toks[3].len());
    assert(toks[2].len() != toks[4].len());
    assert(toks[2].len() != toks[5].len());
    assert(toks[2].len() != toks[6].len());
    assert(toks[3][2] != toks[4][2]);
    assert(toks[3].len() != toks[5].len());
    assert(toks[3].len() != toks[6].len());
    assert(toks[4].len() != toks[5].len());
    assert(toks[4].len() != toks[6].len());
    assert(toks[5][1] != toks[6][1]);
    assert forall|k: int| 0 <= k < 7 implies spec_replace_tokens(p + toks[k] + q, song) == p + vals[k] + q by {
        let tok = toks[k];
        let w = p + tok + q;
        let f = p + vals[k] + q;
        assert(no_brace(vals[k]));
        assert(no_brace(f));
        lemma_fill_one(p, tok, q, toks[0], vals[0]);
        lemma_fill_one(p, tok, q, toks[1], vals[1]);
        lemma_fill_one(p, tok, q, toks[2], vals[2]);
        lemma_fill_one(p, tok, q, toks[3], vals[3]);
        lemma_fill_one(p, tok, q, toks[4], vals[4]);
        lemma_fill_one(p, tok, q, toks[5], vals[5]);
        lemma_fill_one(p, tok, q, toks[6], vals[6]);
        lemma_no_brace_unchanged(f, toks[0], vals[0]);
        lemma_no_brace_unchanged(f, toks[1], vals[1]);
        lemma_no_brace_unchanged(f, toks[2], vals[2]);
        lemma_no_brace_unchanged(f, toks[3], vals[3]);
        lemma_no_brace_unchanged(f, toks[4], vals[4]);
        lemma_no_brace_unchanged(f, toks[5], vals[5]);
        lemma_no_brace_unchanged(f, toks[6], vals[6]);
    }
    assert(spec_replace_tokens(p + toks[0] + q, song) == p + vals[0] + q);
    assert(spec_replace_tokens(p + toks[1] + q, song) == p + vals[1] + q);
    assert(spec_replace_tokens(p + toks[2] + q, song) == p + vals[2] + q);
    assert(spec_replace_tokens(p + toks[3] + q, song) == p + vals[3] + q);
    assert(spec_replace_tokens(p + toks[4] + q, song) == p + vals[4] + q);
    assert(spec_replace_tokens(p + toks[5] + q, song) == p + vals[5] + q);
    assert(spec_replace_tokens(p + toks[6] + q, song) == p + vals[6] + q);
}

/// What the bar shows for a new status: whether the button is shown, and
/// the play and pause icons' visibility where it changes.
#[derive(Debug, Clone, Copy, PartialEq, Eq, Structural)]
pub struct BarDisplay {
    pub button_visible: bool,
    pub play_icon_visible: Option<bool>,
    pub pause_icon_visible: Option<bool>,
}

/// The bar's display for a status: a stopped player hides the button;
/// the status icons follow the state when they are enabled, and are
/// hidden otherwise.
pub open spec fn spec_bar_display(state: PlayerState, show_status_icon: bool) -> BarDisplay {
    if !show_status_icon {
        BarDisplay {
            button_visible: state != PlayerState::Stopped,
            play_icon_visible: Some(false),
            pause_icon_visible: Some(false),
        }
    } else {
        match state {
            PlayerState::Playing => BarDisplay { button_visible: true, play_icon_visible: Some(true), pause_icon_visible: Some(false) },
            PlayerState::Paused => BarDisplay { button_visible: true, play_icon_visible: Some(false), pause_icon_visible: Some(true) },
            PlayerState::Stopped => BarDisplay { button_visible: false, play_icon_visible: None, pause_icon_visible: None },
        }
    }
}

/// Decides what the bar shows for a status.
pub fn bar_display(state: PlayerState, show_status_icon: bool) -> (r: BarDisplay)
    ensures
        r == spec_bar_display(state, show_status_icon),
{
    let mut display = BarDisplay { button_visible: true, play_icon_visible: None, pause_icon_visible: None };
    match state {
        PlayerState::Playing => {
            if show_status_icon {
                display.play_icon_visible = Some(true);
                display.pause_icon_visible = Some(false);
            }
        },
        PlayerState::Paused => {
            if show_status_icon {
                display.pause_icon_visible = Some(true);
                display.play_icon_visible = Some(false);
            }
        },
        PlayerState::Stopped => {
            display.button_visible = false;
        },
    }
    if !show_status_icon {
        display.pause_icon_visible = Some(false);
        display.play_icon_visible = Some(false);
    }
    display
}

/// The state of the popup's player controls.
#[derive(Debug, Clone, Copy, PartialEq, Eq, Structural)]
pub struct PopupControls {
    pub play_visible: bool,
    pub play_sensitive: Option<bool>,
    pub pause_visible: bool,
    pub pause_sensitive: Option<bool>,
    pub prev_sensitive: bool,
    pub next_sensitive: bool,
    /// The volume to show, or `None` to hide the volume slider.
    pub volume: Option<u8>,
}

/// The popup controls for a status: play or pause offered by the state,
/// previous when not at the first entry, next when before the end, and the
/// volume when the player reports one.
pub open spec fn spec_popup_controls(s: Status) -> PopupControls {
    let (play_visible, play_sensitive, pause_visible, pause_sensitive) = match s.state {
        PlayerState::Stopped => (true, Some(false), false, None),
        PlayerState::Playing => (false, Some(false), true, Some(true)),
        PlayerState::Paused => (true, Some(true), false, Some(false)),
    };
    PopupControls {
        play_visible,
        play_sensitive,
        pause_visible,
        pause_sensitive,
        prev_sensitive: s.playlist_position > 0,
        next_sensitive: s.playlist_position < s.playlist_length,
        volume: s.volume_percent,
    }
}

/// Decides the popup controls for a status.
pub fn popup_controls(s: &Status) -> (r: PopupControls)
    ensures
        r == spec_popup_controls(*s),
{
    let (play_visible, play_sensitive, pause_visible, pause_sensitive) = match s.state {
        PlayerState::Stopped => (true, Some(false), false, None),
        PlayerState::Playing => (false, Some(false), true, Some(true)),
        PlayerState::Paused => (true, Some(true), false, Some(false)),
    };
    PopupControls {
        play_visible,
        play_sensitive,
        pause_visible,
        pause_sensitive,
        prev_sensitive: s.playlist_position > 0,
        next_sensitive: s.playlist_position < s.playlist_length,
        volume: s.volume_percent,
    }
}

/// The progress label: `elapsed/duration`, when both are known.
pub fn progress_text(elapsed: Option<u64>, duration: Option<u64>) -> (r: Option<String>)
    ensures
        match (elapsed, duration) {
            (Some(e), Some(d)) => r matches Some(t) && t@ == spec_format_time(e as nat) + seq!['/'] + spec_format_time(d as nat),
            _ => r is None,
        },
{
    match (elapsed, duration) {
        (Some(e), Some(d)) => {
            let a = format_time(e);
            let b = format_time(d);
            let mut out = chars_of(a.as_str());
            out.push('/');
            let bv = chars_of(b.as_str());
            append_chars(&mut out, &bv);
            Some(string_of(&out))
        },
        _ => None,
    }
}

/// What to do with the album art when a track update arrives.
#[derive(Debug)]
pub enum CoverAction {
    /// The cover is the same as before: leave the picture alone.
    Keep,
    /// Load the picture from this path.
    Load(String),
    /// The track has no cover: clear and hide the picture.
    Clear,
}

/// The text of an optional string.
pub open spec fn opt_text(o: Option<String>) -> Option<Seq<char>> {
    match o {
        Some(s) => Some(s@),
        None => None,
    }
}

/// Remembers the cover last shown, so that the art is only reloaded when
/// the album changes.
#[derive(Debug)]
pub struct CoverTracker {
    pub current: Option<String>,
}

impl CoverTracker {
    /// No cover shown yet.
    pub fn new() -> (r: CoverTracker)
        ensures
            r.current is None,
    {
        CoverTracker { current: None }
    }

    /// Takes the cover path of a new update: an unchanged path keeps the
    /// picture; a changed one is remembered and loaded, or cleared when the
    /// track has none.
    pub fn on_cover(&mut self, cover: Option<String>) -> (r: CoverAction)
        ensures
            opt_text(old(self).current) == opt_text(cover) ==> r is Keep && opt_text(final(self).current) == opt_text(old(self).current),
            opt_text(old(self).current) != opt_text(cover) ==> opt_text(final(self).current) == opt_text(cover) && match cover {
                Some(p) => r matches CoverAction::Load(q) && q@ == p@,
                None => r is Clear,
            },
    {
        let same = match (&self.current, &cover) {
            (Some(a), Some(b)) => str_eq(a.as_str(), b.as_str()),
            (None, None) => true,
            _ => false,
        };
        if same {
            return CoverAction::Keep;
        }
        match cover {
            Some(p) => {
                let q = string_of(&chars_of(p.as_str()));
                self.current = Some(p);
                CoverAction::Load(q)
            },
            None => {
                self.current = None;
                CoverAction::Clear
            },
        }
    }
}

} // verus!

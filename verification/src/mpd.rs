//! Music Player Daemon: the bar's text from a format string with
//! `{token}`s, the popup's controls, and the reconnection policy.
use vstd::prelude::*;

use crate::decimal::{dec2, u64_to_chars2};
use crate::menu::strings_view;
use crate::text::{append_chars, chars_of, owned, replace_all, replace_str, str_eq, string_of};

verus! {

/// A command from the bar's controls.
#[derive(Debug, Clone, Copy, PartialEq, Eq, Structural)]
pub enum PlayerCommand {
    Previous,
    Toggle,
    Next,
}

/// The player's state.
#[derive(Debug, Clone, Copy, PartialEq, Eq, Structural)]
pub enum PlayState {
    Stopped,
    Playing,
    Paused,
}

/// Icons for the player's state.
#[derive(Debug, Clone)]
pub struct Icons {
    /// Icon to display when playing.
    pub play: Option<String>,
    /// Icon to display when paused.
    pub pause: Option<String>,
}

impl Icons {
    /// The play and pause glyphs.
    pub fn default() -> (r: Icons)
        ensures
            r.play matches Some(p) && p@ == "\u{f04b}"@,
            r.pause matches Some(p) && p@ == "\u{f04c}"@,
    {
        Icons { play: Some(owned("\u{f04b}")), pause: Some(owned("\u{f04c}")) }
    }
}

/// The module's configuration.
#[derive(Debug, Clone)]
pub struct MpdModule {
    /// TCP or Unix socket address.
    pub host: String,
    /// Format of the current song's info on the bar.
    pub format: String,
    /// Player state icons.
    pub icons: Icons,
}

impl MpdModule {
    /// The local server's default port, the state icon with title and
    /// artist, and the default icons.
    pub fn default() -> (r: MpdModule)
        ensures
            r.host@ == "localhost:6600"@,
            r.format@ == "{icon}  {title} / {artist}"@,
            r.icons.play matches Some(p) && p@ == "\u{f04b}"@,
            r.icons.pause matches Some(p) && p@ == "\u{f04c}"@,
    {
        MpdModule {
            host: owned("localhost:6600"),
            format: owned("{icon}  {title} / {artist}"),
            icons: Icons::default(),
        }
    }
}

/// What the bar reads of the current song: its title and the values of
/// its other tags.
#[derive(Debug, Clone)]
pub struct Song {
    pub title: Option<String>,
    pub album: Option<Vec<String>>,
    pub artist: Option<Vec<String>>,
    pub date: Option<Vec<String>>,
    pub disc: Option<Vec<String>>,
    pub genre: Option<Vec<String>>,
    pub track: Option<Vec<String>>,
}

/// What the bar reads of the player's status; times in whole seconds.
#[derive(Debug, Clone, Copy)]
pub struct Status {
    pub state: PlayState,
    pub duration: Option<u64>,
    pub elapsed: Option<u64>,
    /// The position of the current song in the playlist.
    pub current_song: Option<u64>,
    pub playlist_length: u64,
}

/// The first value of a tag, if it has any.
pub open spec fn first_tag(tag: Option<Vec<String>>) -> Option<Seq<char>> {
    match tag {
        Some(v) => if v@.len() > 0 { Some(v@[0]@) } else { None },
        None => None,
    }
}

/// Attempts to read the first value for a tag (the client gives a list
/// of values, or none).
pub fn try_get_first_tag(vec: Option<&Vec<String>>) -> (r: Option<&str>)
    ensures
        match vec {
            Some(v) => if v@.len() > 0 {
                r matches Some(s) && s@ == v@[0]@
            } else {
                r is None
            },
            None => r is None,
        },
{
    match vec {
        Some(v) => if v.len() > 0 {
            Some(v[0].as_str())
        } else {
            None
        },
        None => None,
    }
}

/// A duration in seconds as `MM:SS`, the minutes taken modulo an hour.
pub open spec fn spec_format_time(time: nat) -> Seq<char> {
    dec2((time / 60) % 60) + seq![':'] + dec2(time % 60)
}

/// Formats a duration given in seconds as minutes and seconds.
pub fn format_time(time: u64) -> (r: String)
    ensures
        r@ == spec_format_time(time as nat),
{
    let minutes = (time / 60) % 60;
    let seconds = time % 60;
    let mut out = u64_to_chars2(minutes);
    out.push(':');
    let s = u64_to_chars2(seconds);
    append_chars(&mut out, &s);
    string_of(&out)
}

/// The first capture group of each match of `pattern` in `text`, in
/// order (`regex::Regex::captures_iter`), or nothing when the pattern is
/// not a valid regular expression.
pub uninterp spec fn regex_first_groups(pattern: Seq<char>, text: Seq<char>) -> Option<Seq<Seq<char>>>;

/// Compiles `pattern` with the `regex` crate and collects the first
/// capture group of each match in `text`.  What is stated: the result is
/// the named function of the two texts.  Only the token pattern is
/// admitted: its group takes part in every match, where indexing a group
/// that did not take part would panic.
#[verifier::external_body]
fn first_groups(pattern: &str, text: &str) -> (r: Option<Vec<String>>)
    requires
        pattern@ == token_pattern(),
    ensures
        match r {
            Some(v) => regex_first_groups(pattern@, text@) == Some(strings_view(v@)),
            None => regex_first_groups(pattern@, text@) is None,
        },
{
    match regex::Regex::new(pattern) {
        Ok(re) => Some(re.captures_iter(text).map(|caps| caps[1].to_string()).collect()),
        Err(_) => None,
    }
}

/// The pattern of a formatting token: a name of word characters and
/// dashes in braces.
pub open spec fn token_pattern() -> Seq<char> {
    "\\{([\\w-]+)}"@
}

/// Extracts the formatting tokens from a formatting string: the names in
/// braces, in order (`None` when the token pattern does not compile).
pub fn get_tokens(format_string: &str) -> (r: Option<Vec<String>>)
    ensures
        match r {
            Some(v) => regex_first_groups(token_pattern(), format_string@) == Some(strings_view(v@)),
            None => regex_first_groups(token_pattern(), format_string@) is None,
        },
{
    first_groups("\\{([\\w-]+)}", format_string)
}

/// The text of an optional value, empty when absent.
pub open spec fn or_empty(o: Option<Seq<char>>) -> Seq<char> {
    match o {
        Some(s) => s,
        None => seq![],
    }
}

/// The value a token stands for: the state icon (none when stopped), the
/// title, the first value of a tag, the duration or elapsed time, and for
/// any other token the token itself.
pub open spec fn spec_token_value(song: Song, status: Status, icons: Icons, token: Seq<char>) -> Seq<char> {
    if token == "icon"@ {
        match status.state {
            PlayState::Stopped => seq![],
            PlayState::Playing => or_empty(crate::menu::opt_view(icons.play)),
            PlayState::Paused => or_empty(crate::menu::opt_view(icons.pause)),
        }
    } else if token == "title"@ {
        or_empty(crate::menu::opt_view(song.title))
    } else if token == "album"@ {
        or_empty(first_tag(song.album))
    } else if token == "artist"@ {
        or_empty(first_tag(song.artist))
    } else if token == "date"@ {
        or_empty(first_tag(song.date))
    } else if token == "disc"@ {
        or_empty(first_tag(song.disc))
    } else if token == "genre"@ {
        or_empty(first_tag(song.genre))
    } else if token == "track"@ {
        or_empty(first_tag(song.track))
    } else if token == "duration"@ {
        match status.duration {
            Some(d) => spec_format_time(d as nat),
            None => seq![],
        }
    } else if token == "elapsed"@ {
        match status.elapsed {
            Some(e) => spec_format_time(e as nat),
            None => seq![],
        }
    } else {
        token
    }
}

/// The text of an optional string.
fn text_or_empty(o: &Option<String>) -> (r: String)
    ensures
        r@ == or_empty(crate::menu::opt_view(*o)),
{
    match o {
        Some(s) => s.clone(),
        None => String::new(),
    }
}

/// The first value of a tag, or nothing.
fn first_or_empty(tag: &Option<Vec<String>>) -> (r: String)
    ensures
        r@ == or_empty(first_tag(*tag)),
{
    let first = match tag {
        Some(v) => try_get_first_tag(Some(v)),
        None => try_get_first_tag(None),
    };
    match first {
        Some(s) => owned(s),
        None => String::new(),
    }
}

/// Converts a formatting token into its value from the player.
pub fn get_token_value(song: &Song, status: &Status, icons: &Icons, token: &str) -> (r: String)
    ensures
        r@ == spec_token_value(*song, *status, *icons, token@),
{
    if str_eq(token, "icon") {
        match status.state {
            PlayState::Stopped => String::new(),
            PlayState::Playing => text_or_empty(&icons.play),
            PlayState::Paused => text_or_empty(&icons.pause),
        }
    } else if str_eq(token, "title") {
        text_or_empty(&song.title)
    } else if str_eq(token, "album") {
        first_or_empty(&song.album)
    } else if str_eq(token, "artist") {
        first_or_empty(&song.artist)
    } else if str_eq(token, "date") {
        first_or_empty(&song.date)
    } else if str_eq(token, "disc") {
        first_or_empty(&song.disc)
    } else if str_eq(token, "genre") {
        first_or_empty(&song.genre)
    } else if str_eq(token, "track") {
        first_or_empty(&song.track)
    } else if str_eq(token, "duration") {
        match status.duration {
            Some(d) => format_time(d),
            None => String::new(),
        }
    } else if str_eq(token, "elapsed") {
        match status.elapsed {
            Some(e) => format_time(e),
            None => String::new(),
        }
    } else {
        owned(token)
    }
}

/// The format string with each token, in order, replaced (in braces) by
/// its value.
pub open spec fn spec_replace_tokens(
    format: Seq<char>,
    tokens: Seq<Seq<char>>,
    song: Song,
    status: Status,
    icons: Icons,
) -> Seq<char>
    decreases tokens.len(),
{
    if tokens.len() == 0 {
        format
    } else {
        let t = tokens.last();
        replace_all(
            spec_replace_tokens(format, tokens.drop_last(), song, status, icons),
            seq!['{'] + t + seq!['}'],
            spec_token_value(song, status, icons, t),
        )
    }
}

/// Replaces each of the formatting tokens in the formatting string with
/// the player's data.
pub fn replace_tokens(
    format_string: &str,
    tokens: &Vec<String>,
    song: &Song,
    status: &Status,
    icons: &Icons,
) -> (r: String)
    ensures
        r@ == spec_replace_tokens(format_string@, strings_view(tokens@), *song, *status, *icons),
{
    let ghost ts = strings_view(tokens@);
    let mut compiled = owned(format_string);
    let mut i: usize = 0;
    while i < tokens.len()
        invariant
            i <= tokens.len(),
            ts == strings_view(tokens@),
            compiled@ == spec_replace_tokens(format_string@, ts.take(i as int), *song, *status, *icons),
        decreases tokens.len() - i,
    {
        let token = &tokens[i];
        let value = get_token_value(song, status, icons, token.as_str());
        let mut pattern: Vec<char> = Vec::new();
        pattern.push('{');
        let tv = chars_of(token.as_str());
        append_chars(&mut pattern, &tv);
        pattern.push('}');
        let p = string_of(&pattern);
        assert(p@ =~= seq!['{'] + ts[i as int] + seq!['}']);
        assert(ts.take(i + 1).drop_last() =~= ts.take(i as int));
        assert(ts.take(i + 1).last() == token@);
        compiled = replace_str(compiled.as_str(), p.as_str(), value.as_str());
        i = i + 1;
    }
    assert(ts.take(tokens.len() as int) =~= ts);
    compiled
}

/// The bar's text: the tokens of the format filled in, or nothing when
/// the token pattern does not compile.
pub fn display_string(format: &str, song: &Song, status: &Status, icons: &Icons) -> (r: Option<String>)
    ensures
        match r {
            Some(s) => exists|ts: Seq<Seq<char>>| regex_first_groups(token_pattern(), format@) == Some(ts)
                && s@ == spec_replace_tokens(format@, ts, *song, *status, *icons),
            None => regex_first_groups(token_pattern(), format@) is None,
        },
{
    match get_tokens(format) {
        Some(tokens) => Some(replace_tokens(format, &tokens, song, status, icons)),
        None => None,
    }
}

/// What the toggle control asks of the server: pause when playing (`Some(true)`),
/// resume when paused (`Some(false)`), nothing when stopped.
pub fn toggle_pause(state: PlayState) -> (r: Option<bool>)
    ensures
        r == match state {
            PlayState::Playing => Some(true),
            PlayState::Paused => Some(false),
            PlayState::Stopped => None::<bool>,
        },
{
    match state {
        PlayState::Playing => Some(true),
        PlayState::Paused => Some(false),
        PlayState::Stopped => None,
    }
}

/// The popup's controls: whether play/pause can be used and its glyph
/// (pause while playing, play while paused), and whether there is a
/// previous and a next song.
#[derive(Debug, Clone, Copy, PartialEq, Eq, Structural)]
pub struct PopupControls {
    pub play_pause_sensitive: bool,
    /// `Some(true)` for the pause glyph, `Some(false)` for play, `None`
    /// to keep the glyph.
    pub shows_pause: Option<bool>,
    pub prev_sensitive: bool,
    pub next_sensitive: bool,
}

/// The popup's controls for a status.
pub open spec fn spec_popup_controls(s: Status) -> PopupControls {
    PopupControls {
        play_pause_sensitive: s.state != PlayState::Stopped,
        shows_pause: match s.state {
            PlayState::Stopped => None,
            PlayState::Playing => Some(true),
            PlayState::Paused => Some(false),
        },
        prev_sensitive: match s.current_song {
            Some(p) => p > 0,
            None => false,
        },
        next_sensitive: match s.current_song {
            Some(p) => p < s.playlist_length,
            None => false,
        },
    }
}

/// The popup's controls for a status.
pub fn popup_controls(s: &Status) -> (r: PopupControls)
    ensures
        r == spec_popup_controls(*s),
{
    PopupControls {
        play_pause_sensitive: s.state != PlayState::Stopped,
        shows_pause: match s.state {
            PlayState::Stopped => None,
            PlayState::Playing => Some(true),
            PlayState::Paused => Some(false),
        },
        prev_sensitive: match s.current_song {
            Some(p) => p > 0,
            None => false,
        },
        next_sensitive: match s.current_song {
            Some(p) => p < s.playlist_length,
            None => false,
        },
    }
}

/// Why connecting failed.
#[derive(Debug, PartialEq, Eq)]
pub enum ConnectError<E> {
    /// The retries were used up before an attempt.
    MaxRetries,
    /// The last allowed attempt failed with this error.
    Protocol(E),
}

/// The retry limit: the configured one, or no limit (`usize::MAX`).
pub open spec fn retry_limit(max_retries: Option<usize>) -> nat {
    match max_retries {
        Some(m) => m as nat,
        None => usize::MAX as nat,
    }
}

/// Before an attempt, after `retries` attempts: `Some(n)` to make attempt
/// number `n`, or `None` when the limit is reached and no attempt is made.
pub fn before_attempt(retries: usize, max_retries: Option<usize>) -> (r: Option<usize>)
    requires
        retries <= retry_limit(max_retries),
    ensures
        retries == retry_limit(max_retries) ==> r is None,
        retries < retry_limit(max_retries) ==> r == Some((retries + 1) as usize),
{
    let max = match max_retries {
        Some(m) => m,
        None => usize::MAX,
    };
    if retries == max {
        None
    } else {
        Some(retries + 1)
    }
}

/// After attempt number `retries` came back with `outcome`: the result to
/// finish with (the connection, or the error of the last allowed attempt),
/// or `None` to wait and try again.
pub fn after_attempt<C, E>(retries: usize, max_retries: Option<usize>, outcome: Result<C, E>) -> (r: Option<Result<C, ConnectError<E>>>)
    ensures
        match outcome {
            Ok(c) => r == Some(Ok::<C, ConnectError<E>>(c)),
            Err(e) => if retries == retry_limit(max_retries) {
                r == Some(Err::<C, ConnectError<E>>(ConnectError::Protocol(e)))
            } else {
                r is None
            },
        },
{
    let max = match max_retries {
        Some(m) => m,
        None => usize::MAX,
    };
    match outcome {
        Ok(c) => Some(Ok(c)),
        Err(e) => if retries == max {
            Some(Err(ConnectError::Protocol(e)))
        } else {
            None
        },
    }
}

/// Connecting, given the outcomes the attempts have in order, after
/// `retries` attempts: `(attempts made, result)`.  No attempt is made once
/// the limit is reached; the first success ends it; a failure of the last
/// allowed attempt ends it with that attempt's error.
pub open spec fn connect_from<C, E>(s: Seq<Result<C, E>>, retries: nat, max: nat) -> (nat, Result<C, ConnectError<E>>)
    decreases max - retries,
{
    if retries >= max || retries >= s.len() {
        (retries, Err(ConnectError::MaxRetries))
    } else {
        match s[retries as int] {
            Ok(c) => ((retries + 1) as nat, Ok(c)),
            Err(e) => if retries + 1 == max {
                ((retries + 1) as nat, Err(ConnectError::Protocol(e)))
            } else {
                connect_from(s, (retries + 1) as nat, max)
            },
        }
    }
}

/// The outcomes reach far enough: a success before the limit, or one
/// outcome for every allowed attempt.
pub open spec fn covers<C, E>(s: Seq<Result<C, E>>, max: nat) -> bool {
    (exists|k: int| 0 <= k < s.len() && k < max && (#[trigger] s[k]) is Ok) || s.len() >= max
}

/// Runs the connection attempts whose outcomes are `outcomes`, in order,
/// with the retry limit: the number of attempts made and the result.
pub fn connect_run<C, E>(outcomes: Vec<Result<C, E>>, max_retries: Option<usize>) -> (r: (usize, Result<C, ConnectError<E>>))
    requires
        covers(outcomes@, retry_limit(max_retries)),
    ensures
        (r.0 as nat, r.1) == connect_from(outcomes@, 0, retry_limit(max_retries)),
{
    let ghost s = outcomes@;
    let ghost max = retry_limit(max_retries);
    let mut rest = outcomes;
    let mut retries: usize = 0;
    loop
        invariant
            max == retry_limit(max_retries),
            s == outcomes@,
            retries <= max,
            rest@ == s.skip(retries as int),
            retries <= s.len(),
            covers(s, max),
            forall|j: int| 0 <= j < retries ==> (#[trigger] s[j]) is Err,
            connect_from(s, retries as nat, max) == connect_from(s, 0, max),
        decreases max - retries,
    {
        let n = match before_attempt(retries, max_retries) {
            Some(n) => n,
            None => {
                return (retries, Err(ConnectError::MaxRetries));
            },
        };
        if rest.len() == 0 {
            proof {
                if s.len() < max {
                    let k = choose|k: int| 0 <= k < s.len() && k < max && (#[trigger] s[k]) is Ok;
                    assert(s[k] is Err);
                }
            }
            return (retries, Err(ConnectError::MaxRetries));
        }
        let ghost before = retries as nat;
        let outcome = rest.remove(0);
        assert(outcome == s[retries as int]);
        assert(rest@ =~= s.skip(n as int));
        let ghost was_err = outcome is Err;
        retries = n;
        match after_attempt(retries, max_retries, outcome) {
            Some(result) => {
                assert(connect_from(s, before, max) == (retries as nat, result));
                return (retries, result);
            },
            None => {},
        }
        assert(was_err);
    }
}

/// What the connection run gives: no more attempts than the limit; a
/// connection only from the first attempt that succeeds; the protocol
/// error only after every allowed attempt failed, carrying the last one's
/// error; and running out of retries only when no attempt is allowed.
pub proof fn lemma_connect_run<C, E>(s: Seq<Result<C, E>>, max: nat)
    requires
        covers(s, max),
    ensures
        connect_from(s, 0, max).0 <= max,
        connect_from(s, 0, max).1 matches Ok(c) ==> ({
            let n = connect_from(s, 0, max).0;
            n >= 1 && s[n - 1] == Ok::<C, E>(c) && forall|j: int| 0 <= j < n - 1 ==> (#[trigger] s[j]) is Err
        }),
        connect_from(s, 0, max).1 matches Err(ConnectError::Protocol(e)) ==> ({
            &&& connect_from(s, 0, max).0 == max
            &&& s[max - 1] == Err::<C, E>(e)
            &&& forall|j: int| 0 <= j < max ==> (#[trigger] s[j]) is Err
        }),
        connect_from(s, 0, max).1 matches Err(ConnectError::MaxRetries) ==> max == 0 && connect_from(s, 0, max).0 == 0,
{
    lemma_connect_from(s, 0, max);
}

proof fn lemma_connect_from<C, E>(s: Seq<Result<C, E>>, i: nat, max: nat)
    requires
        covers(s, max),
        i <= max,
        i == max ==> i == 0,
        forall|j: int| 0 <= j < i ==> (#[trigger] s[j]) is Err,
    ensures
        i <= connect_from(s, i, max).0 <= max,
        connect_from(s, i, max).1 matches Ok(c) ==> ({
            let n = connect_from(s, i, max).0;
            n >= 1 && s[n - 1] == Ok::<C, E>(c) && forall|j: int| 0 <= j < n - 1 ==> (#[trigger] s[j]) is Err
        }),
        connect_from(s, i, max).1 matches Err(ConnectError::Protocol(e)) ==> ({
            &&& connect_from(s, i, max).0 == max
            &&& s[max - 1] == Err::<C, E>(e)
            &&& forall|j: int| 0 <= j < max ==> (#[trigger] s[j]) is Err
        }),
        connect_from(s, i, max).1 matches Err(ConnectError::MaxRetries) ==> max == 0 && connect_from(s, i, max).0 == 0,
    decreases max - i,
{
    if i >= max {
    } else if i >= s.len() {
        if s.len() < max {
            let k = choose|k: int| 0 <= k < s.len() && k < max && (#[trigger] s[k]) is Ok;
            assert(s[k] is Err);
        }
    } else {
        match s[i as int] {
            Ok(c) => {},
            Err(e) => {
                if i + 1 != max {
                    lemma_connect_from(s, (i + 1) as nat, max);
                }
            },
        }
    }
}

} // verus!

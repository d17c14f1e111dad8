//! Idle inhibition: the durations a user cycles through, the countdown
//! while inhibition is on, and the command line that holds it.
use chrono::Timelike;
use vstd::prelude::*;

use crate::decimal::{dec, parse_u64, parse_unsigned, u64_to_chars, u64_to_chars2, dec2, digits_value, all_digits, is_digit};
use crate::text::{append_chars, chars_of, owned, replace_all, replace_str, str_eq, string_of};

verus! {

/// Command to control inhibit state.
#[derive(Debug, Clone, Copy, PartialEq, Eq, Structural)]
pub enum InhibitCommand {
    /// Toggle inhibit on/off.
    Toggle,
    /// Cycle to next duration.
    Cycle,
}

/// How long inhibition lasts: a number of seconds, or until turned off.
#[derive(Debug, Clone, Copy, PartialEq, Eq, Structural)]
pub enum InhibitDuration {
    Seconds(u64),
    Infinite,
}

/// The seconds since midnight of a time of day written as `HH:MM:SS`
/// (`chrono::NaiveTime::parse_from_str(s, "%H:%M:%S")`, then
/// `num_seconds_from_midnight`).
pub uninterp spec fn chrono_hms_seconds(s: Seq<char>) -> Option<u32>;

/// A time of day written with exactly two digits per field, in range:
/// its seconds since midnight.
pub open spec fn plain_hms_seconds(s: Seq<char>) -> Option<nat> {
    if s.len() == 8 && s[2] == ':' && s[5] == ':' && all_digits(s.subrange(0, 2)) && all_digits(
        s.subrange(3, 5),
    ) && all_digits(s.subrange(6, 8)) {
        let h = digits_value(s.subrange(0, 2));
        let m = digits_value(s.subrange(3, 5));
        let sec = digits_value(s.subrange(6, 8));
        if h < 24 && m < 60 && sec < 60 {
            Some(h * 3600 + m * 60 + sec)
        } else {
            None
        }
    } else {
        None
    }
}

/// Parses `s` as a time of day with `chrono` and gives its seconds since
/// midnight.  What is stated: the result is less than a day, and for
/// times written `HH:MM:SS` with two in-range digits per field it is
/// `HH*3600 + MM*60 + SS`; which other spellings chrono accepts is named,
/// not stated.
#[verifier::external_body]
fn parse_hms(s: &str) -> (r: Option<u32>)
    ensures
        r == chrono_hms_seconds(s@),
        r matches Some(n) ==> n < 86400,
        plain_hms_seconds(s@) matches Some(n) ==> r == Some(n as u32),
{
    chrono::NaiveTime::parse_from_str(s, "%H:%M:%S").ok().map(|t| t.num_seconds_from_midnight())
}

/// What `parse_duration` gives: `0`, `00:00:00` and `inf` mean no limit;
/// anything else is read as `HH:MM:SS`.
pub open spec fn spec_parse_duration(s: Seq<char>) -> Result<InhibitDuration, Seq<char>> {
    if s == "0"@ || s == "00:00:00"@ || s == "inf"@ {
        Ok(InhibitDuration::Infinite)
    } else {
        spec_duration_from_parsed(s, chrono_hms_seconds(s))
    }
}

/// What a duration text gives once read as a time of day: its seconds, or
/// an error naming the text when it did not read.
pub open spec fn spec_duration_from_parsed(s: Seq<char>, parsed: Option<u32>) -> Result<InhibitDuration, Seq<char>> {
    match parsed {
        Some(n) => Ok(InhibitDuration::Seconds(n as u64)),
        None => Err("invalid duration: "@ + s),
    }
}

/// The duration for the text `s` given what reading it as a time of day
/// gave.
pub fn duration_from_parsed(s: &str, parsed: Option<u32>) -> (r: Result<InhibitDuration, String>)
    ensures
        match r {
            Ok(d) => spec_duration_from_parsed(s@, parsed) == Ok::<InhibitDuration, Seq<char>>(d),
            Err(e) => spec_duration_from_parsed(s@, parsed) == Err::<InhibitDuration, Seq<char>>(e@),
        },
{
    match parsed {
        Some(n) => Ok(InhibitDuration::Seconds(n as u64)),
        None => {
            let mut msg = chars_of("invalid duration: ");
            let v = chars_of(s);
            append_chars(&mut msg, &v);
            Err(string_of(&msg))
        },
    }
}

/// Reads a duration as the configuration writes it.
pub fn parse_duration(s: &str) -> (r: Result<InhibitDuration, String>)
    ensures
        plain_hms_seconds(s@) matches Some(n) ==> (s@ == "00:00:00"@ || r == Ok::<InhibitDuration, String>(InhibitDuration::Seconds(n as u64))),
        match r {
            Ok(d) => spec_parse_duration(s@) == Ok::<InhibitDuration, Seq<char>>(d),
            Err(e) => spec_parse_duration(s@) == Err::<InhibitDuration, Seq<char>>(e@),
        },
{
    proof {
        reveal_strlit("0");
        reveal_strlit("inf");
    }
    if str_eq(s, "0") || str_eq(s, "00:00:00") || str_eq(s, "inf") {
        return Ok(InhibitDuration::Infinite);
    }
    let parsed = parse_hms(s);
    duration_from_parsed(s, parsed)
}

/// The durations to cycle through and the one selected at start.
#[derive(Debug, Clone)]
pub struct DurationSpec {
    pub durations: Vec<InhibitDuration>,
    pub default_duration: InhibitDuration,
}

impl DurationSpec {
    /// The durations are not empty and include the default one.
    pub open spec fn wf(&self) -> bool {
        self.durations@.len() > 0 && self.durations@.contains(self.default_duration)
    }

    /// Half an hour, one hour, an hour and a half, two hours, and no limit;
    /// half an hour selected.
    pub fn default() -> (r: DurationSpec)
        ensures
            r.durations@ == seq![
                InhibitDuration::Seconds(1800),
                InhibitDuration::Seconds(3600),
                InhibitDuration::Seconds(5400),
                InhibitDuration::Seconds(7200),
                InhibitDuration::Infinite,
            ],
            r.default_duration == InhibitDuration::Seconds(1800),
            r.wf(),
    {
        proof {
            reveal_strlit("00:30:00");
            reveal_strlit("01:00:00");
            reveal_strlit("01:30:00");
            reveal_strlit("02:00:00");
            reveal_strlit("0");
            reveal_strlit("00:00:00");
            reveal_strlit("inf");
            lemma_plain_hms("00:30:00"@, 0, 30, 0);
            lemma_plain_hms("01:00:00"@, 1, 0, 0);
            lemma_plain_hms("01:30:00"@, 1, 30, 0);
            lemma_plain_hms("02:00:00"@, 2, 0, 0);
            assert("00:30:00"@[3] != "00:00:00"@[3]);
        }
        let mut durations: Vec<InhibitDuration> = Vec::new();
        durations.push(default_entry("00:30:00", 1800));
        durations.push(default_entry("01:00:00", 3600));
        durations.push(default_entry("01:30:00", 5400));
        durations.push(default_entry("02:00:00", 7200));
        durations.push(InhibitDuration::Infinite);
        let default_duration = durations[0];
        assert(durations@[0] == default_duration);
        DurationSpec { durations, default_duration }
    }

    /// The spec a configuration gives: its list of durations (the default
    /// list when it has none) and its default (the first duration when it
    /// gives none).  An empty list, a duration that does not read, or a
    /// default outside the list is an error.
    pub fn from_config(durations: Option<Vec<String>>, default_duration: Option<String>) -> (r: Result<DurationSpec, String>)
        ensures
            r matches Ok(d) ==> d.wf(),
            r is Err <==> (match durations {
                Some(v) => v@.len() == 0 || exists|i: int| 0 <= i < v@.len() && spec_parse_duration(#[trigger] v@[i]@) is Err,
                None => false,
            }) || (match default_duration {
                Some(s) => spec_parse_duration(s@) is Err,
                None => false,
            }) || !config_durations(durations).contains(config_default(durations, default_duration)),
            r matches Ok(d) ==> d.durations@ == config_durations(durations)
                && d.default_duration == config_default(durations, default_duration),
            r matches Err(e) ==> config_error(durations, default_duration) == Some(e@),
    {
        let list = match durations {
            Some(strs) => {
                if strs.len() == 0 {
                    let e = owned("durations list cannot be empty");
                    return Err(e);
                }
                let mut out: Vec<InhibitDuration> = Vec::new();
                let mut i: usize = 0;
                while i < strs.len()
                    invariant
                        i <= strs.len(),
                        strs@.len() > 0,
                        out@.len() == i,
                        forall|k: int| 0 <= k < i ==> spec_parse_duration(#[trigger] strs@[k]@) == Ok::<InhibitDuration, Seq<char>>(out@[k]),
                        durations == Some(strs),
                        first_bad_from(strs@, i as nat) == first_bad_from(strs@, 0),
                    decreases strs.len() - i,
                {
                    match parse_duration(strs[i].as_str()) {
                        Ok(d) => out.push(d),
                        Err(e) => {
                            return Err(e);
                        },
                    }
                    i = i + 1;
                }
                proof {
                    assert(out@ =~= parsed_list(strs@));
                }
                out
            },
            None => DurationSpec::default().durations,
        };
        let default = match default_duration {
            Some(s) => match parse_duration(s.as_str()) {
                Ok(d) => d,
                Err(e) => {
                    return Err(e);
                },
            },
            None => list[0],
        };
        let mut found = false;
        let mut k: usize = 0;
        while k < list.len()
            invariant
                k <= list.len(),
                found == exists|j: int| 0 <= j < k && list@[j] == default,
            decreases list.len() - k,
        {
            if list[k] == default {
                found = true;
            }
            k = k + 1;
        }
        if !found {
            return Err(owned("default_duration must be in durations list"));
        }
        Ok(DurationSpec { durations: list, default_duration: default })
    }
}

/// The error of the first configured duration from position `i` on that
/// does not read.
pub open spec fn first_bad_from(v: Seq<String>, i: nat) -> Option<Seq<char>>
    decreases v.len() - i,
{
    if i >= v.len() {
        None
    } else {
        match spec_parse_duration(v[i as int]@) {
            Err(e) => Some(e),
            Ok(_) => first_bad_from(v, (i + 1) as nat),
        }
    }
}

/// The message a configuration is refused with, if it is: an empty list;
/// else the first duration of the list that does not read; else a default
/// that does not read; else a default missing from the list.
pub open spec fn config_error(durations: Option<Vec<String>>, default_duration: Option<String>) -> Option<Seq<char>> {
    let list_error: Option<Seq<char>> = match durations {
        Some(v) => if v@.len() == 0 {
            Some("durations list cannot be empty"@)
        } else {
            first_bad_from(v@, 0)
        },
        None => None,
    };
    if list_error is Some {
        list_error
    } else {
        match default_duration {
            Some(s) => match spec_parse_duration(s@) {
                Err(e) => Some(e),
                Ok(_) => if config_durations(durations).contains(config_default(durations, default_duration)) {
                    None
                } else {
                    Some("default_duration must be in durations list"@)
                },
            },
            None => if config_durations(durations).contains(config_default(durations, default_duration)) {
                None
            } else {
                Some("default_duration must be in durations list"@)
            },
        }
    }
}

/// The durations a list of configured strings reads as, where each reads.
pub open spec fn parsed_list(v: Seq<String>) -> Seq<InhibitDuration> {
    v.map_values(|s: String| match spec_parse_duration(s@) {
        Ok(d) => d,
        Err(_) => InhibitDuration::Infinite,
    })
}

/// The list of durations a configuration gives.
pub open spec fn config_durations(durations: Option<Vec<String>>) -> Seq<InhibitDuration> {
    match durations {
        Some(v) => parsed_list(v@),
        None => seq![
            InhibitDuration::Seconds(1800),
            InhibitDuration::Seconds(3600),
            InhibitDuration::Seconds(5400),
            InhibitDuration::Seconds(7200),
            InhibitDuration::Infinite,
        ],
    }
}

/// The default duration a configuration gives.
pub open spec fn config_default(durations: Option<Vec<String>>, default_duration: Option<String>) -> InhibitDuration {
    match default_duration {
        Some(s) => match spec_parse_duration(s@) {
            Ok(d) => d,
            Err(_) => InhibitDuration::Infinite,
        },
        None => config_durations(durations)[0],
    }
}

proof fn lemma_two_digits(s: Seq<char>, i: int)
    requires
        0 <= i && i + 2 <= s.len(),
        is_digit(s[i]),
        is_digit(s[i + 1]),
    ensures
        all_digits(s.subrange(i, i + 2)),
        digits_value(s.subrange(i, i + 2)) == crate::decimal::digit_value(s[i]) * 10 + crate::decimal::digit_value(s[i + 1]),
{
    let t = s.subrange(i, i + 2);
    let one = seq![s[i]];
    assert(t.drop_last() =~= one);
    assert(one.drop_last() =~= Seq::<char>::empty());
    assert(digits_value(Seq::<char>::empty()) == 0);
    assert(one.last() == s[i]);
    assert(digits_value(one) == crate::decimal::digit_value(s[i]));
    assert(t.last() == s[i + 1]);
    assert(digits_value(t) == digits_value(one) * 10 + crate::decimal::digit_value(s[i + 1]));
    assert(t[0] == s[i] && t[1] == s[i + 1]);
}

/// A time written `HH:MM:SS` with in-range digits reads as its seconds.
proof fn lemma_plain_hms(s: Seq<char>, h: nat, m: nat, sec: nat)
    requires
        s.len() == 8,
        s[2] == ':',
        s[5] == ':',
        is_digit(s[0]) && is_digit(s[1]) && is_digit(s[3]) && is_digit(s[4]) && is_digit(s[6]) && is_digit(s[7]),
        h == crate::decimal::digit_value(s[0]) * 10 + crate::decimal::digit_value(s[1]),
        m == crate::decimal::digit_value(s[3]) * 10 + crate::decimal::digit_value(s[4]),
        sec == crate::decimal::digit_value(s[6]) * 10 + crate::decimal::digit_value(s[7]),
        h < 24 && m < 60 && sec < 60,
    ensures
        plain_hms_seconds(s) == Some(h * 3600 + m * 60 + sec),
{
    lemma_two_digits(s, 0);
    lemma_two_digits(s, 3);
    lemma_two_digits(s, 6);
}

fn default_entry(s: &str, secs: u64) -> (r: InhibitDuration)
    requires
        plain_hms_seconds(s@) == Some(secs as nat),
        s@ != "0"@ && s@ != "00:00:00"@ && s@ != "inf"@,
    ensures
        r == InhibitDuration::Seconds(secs),
{
    proof {
        assert(secs < 86400);
    }
    match parse_duration(s) {
        Ok(d) => d,
        Err(_) => InhibitDuration::Infinite,
    }
}

/// The text a duration is shown as: a symbol for no limit, else
/// `HH:MM:SS` when it has hours and `MM:SS` otherwise, two digits each.
pub open spec fn spec_format_duration(d: InhibitDuration) -> Seq<char> {
    match d {
        InhibitDuration::Infinite => seq!['\u{edfe}'],
        InhibitDuration::Seconds(s) => {
            let h = s / 3600;
            let m = s % 3600 / 60;
            let sec = s % 60;
            if h > 0 {
                dec2(h as nat) + seq![':'] + dec2(m as nat) + seq![':'] + dec2(sec as nat)
            } else {
                dec2(m as nat) + seq![':'] + dec2(sec as nat)
            }
        },
    }
}

/// Shows a duration.
pub fn format_duration(d: InhibitDuration) -> (r: String)
    ensures
        r@ == spec_format_duration(d),
{
    match d {
        InhibitDuration::Infinite => {
            let mut out: Vec<char> = Vec::new();
            out.push('\u{edfe}');
            string_of(&out)
        },
        InhibitDuration::Seconds(s) => {
            let h = s / 3600;
            let m = s % 3600 / 60;
            let sec = s % 60;
            let mut out: Vec<char> = Vec::new();
            if h > 0 {
                let hv = u64_to_chars2(h);
                append_chars(&mut out, &hv);
                out.push(':');
            }
            let mv = u64_to_chars2(m);
            append_chars(&mut out, &mv);
            out.push(':');
            let sv = u64_to_chars2(sec);
            append_chars(&mut out, &sv);
            proof {
                if h > 0 {
                    assert(out@ =~= dec2(h as nat) + seq![':'] + dec2(m as nat) + seq![':'] + dec2(sec as nat));
                } else {
                    assert(out@ =~= dec2(m as nat) + seq![':'] + dec2(sec as nat));
                }
            }
            string_of(&out)
        },
    }
}

/// The inhibit module's configuration.
#[derive(Debug, Clone)]
pub struct InhibitModule {
    pub duration_spec: DurationSpec,
    pub on_click_left: Option<InhibitCommand>,
    pub on_click_right: Option<InhibitCommand>,
    pub on_click_middle: Option<InhibitCommand>,
    pub format_on: String,
    pub format_off: String,
}

impl InhibitModule {
    /// The default durations; a left click toggles, a right click cycles,
    /// a middle click does nothing; a coffee cup while on and a sleeping
    /// face while off, each with the duration.
    pub fn default() -> (r: InhibitModule)
        ensures
            r.duration_spec.wf(),
            r.duration_spec.default_duration == InhibitDuration::Seconds(1800),
            r.duration_spec.durations@ == seq![
                InhibitDuration::Seconds(1800),
                InhibitDuration::Seconds(3600),
                InhibitDuration::Seconds(5400),
                InhibitDuration::Seconds(7200),
                InhibitDuration::Infinite,
            ],
            r.on_click_left == Some(InhibitCommand::Toggle),
            r.on_click_right == Some(InhibitCommand::Cycle),
            r.on_click_middle == None::<InhibitCommand>,
            r.format_on@ == "\u{2615} {duration}"@,
            r.format_off@ == "\u{1f4a4} {duration}"@,
    {
        InhibitModule {
            duration_spec: DurationSpec::default(),
            on_click_left: Some(InhibitCommand::Toggle),
            on_click_right: Some(InhibitCommand::Cycle),
            on_click_middle: None,
            format_on: owned("\u{2615} {duration}"),
            format_off: owned("\u{1f4a4} {duration}"),
        }
    }
}

/// Whether inhibition is on, and the duration shown.
#[derive(Debug, Clone, Copy, PartialEq, Eq, Structural)]
pub struct State {
    pub active: bool,
    pub duration: InhibitDuration,
}

/// The inhibit module's controller: the durations, the selected one, and
/// the state shown.
#[derive(Debug, Clone)]
pub struct InhibitController {
    pub durations: Vec<InhibitDuration>,
    pub idx: usize,
    pub state: State,
}

/// The state after a command: `Cycle` selects the next duration (after the
/// last comes the first), `Toggle` switches inhibition; either way the
/// selected duration is shown.
pub open spec fn after_command(c: InhibitController, cmd: InhibitCommand) -> (usize, State) {
    let idx = match cmd {
        InhibitCommand::Cycle => ((c.idx + 1) % (c.durations@.len() as int)) as usize,
        InhibitCommand::Toggle => c.idx,
    };
    let active = match cmd {
        InhibitCommand::Toggle => !c.state.active,
        InhibitCommand::Cycle => c.state.active,
    };
    (idx, State { active, duration: c.durations@[idx as int] })
}

/// The state after one second of active inhibition: a second less, and at
/// zero inhibition ends and the selected duration is shown again.
pub open spec fn after_tick(c: InhibitController) -> State {
    match c.state.duration {
        InhibitDuration::Seconds(s) => if s <= 1 {
            State { active: false, duration: c.durations@[c.idx as int] }
        } else {
            State { active: true, duration: InhibitDuration::Seconds((s - 1) as u64) }
        },
        InhibitDuration::Infinite => c.state,
    }
}

impl InhibitController {
    /// The selected position is in range of a non-empty list.
    pub open spec fn wf(&self) -> bool {
        self.durations@.len() > 0 && self.idx < self.durations@.len()
    }

    /// Whether a second of countdown is due: inhibition is on and limited.
    pub open spec fn spec_ticking(&self) -> bool {
        self.state.active && self.state.duration != InhibitDuration::Infinite
    }

    /// Starts with inhibition off and the default duration selected.
    pub fn new(spec: &DurationSpec) -> (r: InhibitController)
        requires
            spec.wf(),
        ensures
            r.wf(),
            r.durations@ == spec.durations@,
            r.durations@[r.idx as int] == spec.default_duration,
            forall|j: int| 0 <= j < r.idx ==> r.durations@[j] != spec.default_duration,
            r.state == (State { active: false, duration: spec.default_duration }),
    {
        let durations = spec.durations.clone();
        let mut idx: usize = 0;
        let mut k: usize = 0;
        let mut found = false;
        assert(durations@ =~= spec.durations@);
        while k < durations.len()
            invariant
                k <= durations.len(),
                durations@ == spec.durations@,
                !found ==> forall|j: int| 0 <= j < k ==> durations@[j] != spec.default_duration,
                found ==> idx < durations@.len() && durations@[idx as int] == spec.default_duration
                    && forall|j: int| 0 <= j < idx ==> durations@[j] != spec.default_duration,
            decreases durations.len() - k,
        {
            if !found && durations[k] == spec.default_duration {
                idx = k;
                found = true;
            }
            k = k + 1;
        }
        proof {
            if !found {
                let j = choose|j: int| 0 <= j < durations@.len() && durations@[j] == spec.default_duration;
                assert(durations@[j] == spec.default_duration);
            }
        }
        let duration = durations[idx];
        InhibitController { durations, idx, state: State { active: false, duration } }
    }

    /// Whether a second of countdown is due.
    pub fn ticking(&self) -> (r: bool)
        ensures
            r == self.spec_ticking(),
    {
        self.state.active && self.state.duration != InhibitDuration::Infinite
    }

    /// Applies a command and returns the state to show.
    pub fn on_command(&mut self, cmd: InhibitCommand) -> (r: State)
        requires
            old(self).wf(),
        ensures
            final(self).wf(),
            final(self).durations@ == old(self).durations@,
            (final(self).idx, final(self).state) == after_command(*old(self), cmd),
            r == final(self).state,
    {
        match cmd {
            InhibitCommand::Cycle => {
                let n = self.durations.len();
                self.idx = (self.idx + 1) % n;
            },
            InhibitCommand::Toggle => {
                self.state.active = !self.state.active;
            },
        }
        self.state.duration = self.durations[self.idx];
        self.state
    }

    /// One second of countdown; returns the state to show.
    pub fn on_tick(&mut self) -> (r: State)
        requires
            old(self).wf(),
            old(self).spec_ticking(),
        ensures
            final(self).wf(),
            final(self).durations@ == old(self).durations@,
            final(self).idx == old(self).idx,
            final(self).state == after_tick(*old(self)),
            r == final(self).state,
            old(self).state.duration matches InhibitDuration::Seconds(n) ==> (n <= 1 ==> (!r.active
                && r.duration == old(self).durations@[old(self).idx as int])),
            old(self).state.duration matches InhibitDuration::Seconds(n) ==> (n > 1 ==> (r.active
                && r.duration == InhibitDuration::Seconds((n - 1) as u64))),
    {
        if let InhibitDuration::Seconds(s) = self.state.duration {
            let left = if s > 0 { s - 1 } else { 0 };
            self.state.duration = InhibitDuration::Seconds(left);
            if left == 0 {
                self.state.active = false;
                self.state.duration = self.durations[self.idx];
            }
        }
        self.state
    }
}

/// The controller after `k` seconds of countdown.
pub open spec fn ticked(c: InhibitController, k: nat) -> InhibitController
    decreases k,
{
    if k == 0 {
        c
    } else {
        let p = ticked(c, (k - 1) as nat);
        InhibitController { state: after_tick(p), ..p }
    }
}

/// Inhibition for `n` seconds stays on, counting down one second at a
/// time, for `n - 1` ticks, and the `n`-th tick ends it and shows the
/// selected duration again.
pub proof fn lemma_countdown_ends(c: InhibitController, n: nat)
    requires
        c.wf(),
        n >= 1,
        n <= u64::MAX,
        c.state == (State { active: true, duration: InhibitDuration::Seconds(n as u64) }),
    ensures
        forall|k: nat| k < n ==> #[trigger] ticked(c, k).state == (State {
            active: true,
            duration: InhibitDuration::Seconds((n - k) as u64),
        }),
        ticked(c, n).state == (State { active: false, duration: c.durations@[c.idx as int] }),
{
    assert forall|k: nat| k < n implies #[trigger] ticked(c, k).state == (State {
        active: true,
        duration: InhibitDuration::Seconds((n - k) as u64),
    }) && ticked(c, k).idx == c.idx && ticked(c, k).durations == c.durations by {
        lemma_ticked_active(c, n, k);
    }
    lemma_ticked_active(c, n, (n - 1) as nat);
}

proof fn lemma_ticked_active(c: InhibitController, n: nat, k: nat)
    requires
        n >= 1,
        n <= u64::MAX,
        k < n,
        c.state == (State { active: true, duration: InhibitDuration::Seconds(n as u64) }),
    ensures
        ticked(c, k).state == (State { active: true, duration: InhibitDuration::Seconds((n - k) as u64) }),
        ticked(c, k).idx == c.idx,
        ticked(c, k).durations == c.durations,
    decreases k,
{
    if k > 0 {
        lemma_ticked_active(c, n, (k - 1) as nat);
    }
}

/// Toggling twice leaves inhibition as it was, on the same duration; a
/// toggle switches inhibition and keeps the selection; a cycle keeps
/// inhibition as it is and moves the selection one on, from the last back
/// to the first.
pub proof fn lemma_commands(c: InhibitController)
    requires
        c.wf(),
    ensures
        ({
            let (i1, s1) = after_command(c, InhibitCommand::Toggle);
            let c1 = InhibitController { idx: i1, state: s1, ..c };
            let (i2, s2) = after_command(c1, InhibitCommand::Toggle);
            &&& i1 == c.idx && s1.active == !c.state.active
            &&& i2 == c.idx && s2.active == c.state.active
            &&& s2.duration == c.durations@[c.idx as int]
        }),
        ({
            let (i, st) = after_command(c, InhibitCommand::Cycle);
            &&& st.active == c.state.active
            &&& (c.idx + 1 < c.durations@.len() ==> i == c.idx + 1)
            &&& (c.idx + 1 == c.durations@.len() ==> i == 0)
            &&& st.duration == c.durations@[i as int]
        }),
{
    let len = c.durations@.len() as int;
    let n = c.idx + 1;
    assert(c.durations@.len() == c.durations.len());
    assert(len <= usize::MAX);
    if n < len {
        assert(n % len == n) by (nonlinear_arith)
            requires
                0 <= n < len,
        ;
        assert(((n % len) as usize) as int == n);
    } else {
        assert(n % len == 0) by (nonlinear_arith)
            requires
                n == len,
                len > 0,
        ;
    }
}

/// Cycling through all durations brings the selection back to where it was.
pub proof fn lemma_cycle_returns(len: int, idx: int, n: int)
    requires
        len > 0,
        0 <= idx < len,
        n >= 0,
    ensures
        (idx + n * len) % len == idx,
{
    assert((idx + n * len) % len == idx) by (nonlinear_arith)
        requires
            len > 0,
            0 <= idx < len,
            n >= 0,
    ;
}

/// The label text: the on or off format with `{duration}` replaced.
pub open spec fn spec_label(state: State, fmt_on: Seq<char>, fmt_off: Seq<char>) -> Seq<char> {
    replace_all(
        if state.active { fmt_on } else { fmt_off },
        "{duration}"@,
        spec_format_duration(state.duration),
    )
}

/// The label text for a state.
pub fn label_text(state: State, fmt_on: &str, fmt_off: &str) -> (r: String)
    ensures
        r@ == spec_label(state, fmt_on@, fmt_off@),
{
    let fmt = if state.active { fmt_on } else { fmt_off };
    let d = format_duration(state.duration);
    replace_str(fmt, "{duration}", d.as_str())
}

/// The program that holds inhibition.
pub open spec fn inhibit_cmd() -> Seq<char> {
    "/usr/bin/systemd-inhibit"@
}

/// The argument of `sleep`: `infinity`, or the number of seconds.
pub open spec fn sleep_arg(d: InhibitDuration) -> Seq<char> {
    match d {
        InhibitDuration::Infinite => "infinity"@,
        InhibitDuration::Seconds(s) => dec(s as nat),
    }
}

/// The command line (program, arguments, ignore-failure flag) of the unit
/// that holds inhibition for `duration`.
pub fn exec_tuple(duration: InhibitDuration) -> (r: (String, Vec<String>, bool))
    ensures
        r.0@ == inhibit_cmd(),
        r.1@.map_values(|s: String| s@) == seq![
            inhibit_cmd(),
            "--what=sleep:idle"@,
            "--who=ironbar"@,
            "--why=User requested"@,
            "sleep"@,
            sleep_arg(duration),
        ],
        !r.2,
{
    let arg = match duration {
        InhibitDuration::Infinite => owned("infinity"),
        InhibitDuration::Seconds(s) => {
            let v = u64_to_chars(s);
            string_of(&v)
        },
    };
    let mut args: Vec<String> = Vec::new();
    args.push(owned("/usr/bin/systemd-inhibit"));
    args.push(owned("--what=sleep:idle"));
    args.push(owned("--who=ironbar"));
    args.push(owned("--why=User requested"));
    args.push(owned("sleep"));
    args.push(arg);
    proof {
        assert(args@.map_values(|s: String| s@) =~= seq![
            inhibit_cmd(),
            "--what=sleep:idle"@,
            "--who=ironbar"@,
            "--why=User requested"@,
            "sleep"@,
            sleep_arg(duration),
        ]);
    }
    (owned("/usr/bin/systemd-inhibit"), args, false)
}

/// The value of `key` in an environment entry `key=value`, when the value
/// is a `u64`.
pub open spec fn env_value(entry: Seq<char>, key: Seq<char>) -> Option<nat> {
    let prefix = key + seq!['='];
    if entry.len() >= prefix.len() && entry.take(prefix.len() as int) == prefix {
        parse_unsigned(entry.skip(prefix.len() as int), u64::MAX as nat)
    } else {
        None
    }
}

/// The first entry of `env` that gives `key` a `u64` value.
pub open spec fn spec_read_env(env: Seq<String>, key: Seq<char>) -> Option<nat>
    decreases env.len(),
{
    if env.len() == 0 {
        None
    } else {
        match spec_read_env(env.drop_last(), key) {
            Some(v) => Some(v),
            None => env_value(env.last()@, key),
        }
    }
}

/// Reads a number stored in a unit's environment, such as the expiry time.
pub fn read_env(env: &[String], key: &str) -> (r: Option<u64>)
    ensures
        match r {
            Some(v) => spec_read_env(env@, key@) == Some(v as nat),
            None => spec_read_env(env@, key@) is None,
        },
{
    let mut prefix = chars_of(key);
    prefix.push('=');
    let mut i: usize = 0;
    while i < env.len()
        invariant
            i <= env.len(),
            prefix@ == key@ + seq!['='],
            spec_read_env(env@.take(i as int), key@) is None,
        decreases env.len() - i,
    {
        let entry = chars_of(env[i].as_str());
        assert(env@.take(i + 1).drop_last() =~= env@.take(i as int));
        let mut matches = entry.len() >= prefix.len();
        let mut k: usize = 0;
        while matches && k < prefix.len()
            invariant
                k <= prefix.len(),
                matches ==> entry.len() >= prefix.len(),
                matches ==> forall|j: int| 0 <= j < k ==> entry@[j] == prefix@[j],
                !matches ==> !(entry@.len() >= prefix@.len() && entry@.take(prefix@.len() as int) == prefix@),
            decreases prefix.len() - k,
        {
            if entry[k] != prefix[k] {
                matches = false;
                assert(entry@.take(prefix@.len() as int)[k as int] != prefix@[k as int]);
            }
            k = k + 1;
        }
        if matches {
            assert(entry@.take(prefix@.len() as int) =~= prefix@);
            let mut rest: Vec<char> = Vec::new();
            let mut j = prefix.len();
            while j < entry.len()
                invariant
                    prefix.len() <= j <= entry.len(),
                    rest@ == entry@.subrange(prefix.len() as int, j as int),
                decreases entry.len() - j,
            {
                rest.push(entry[j]);
                j = j + 1;
                assert(rest@ =~= entry@.subrange(prefix.len() as int, j as int));
            }
            assert(rest@ =~= entry@.skip(prefix.len() as int));
            match parse_u64(&rest) {
                Some(v) => {
                    proof {
                        assert(env@.take(i + 1).last() == env@[i as int]);
                        lemma_read_env_prefix(env@, i as int + 1, key@);
                    }
                    return Some(v);
                },
                None => {},
            }
        }
        i = i + 1;
    }
    assert(env@.take(env.len() as int) =~= env@);
    None
}

proof fn lemma_read_env_prefix(env: Seq<String>, k: int, key: Seq<char>)
    requires
        0 < k <= env.len(),
        spec_read_env(env.take(k), key) is Some,
    ensures
        spec_read_env(env, key) == spec_read_env(env.take(k), key),
    decreases env.len() - k,
{
    if k < env.len() {
        assert(env.take(k + 1).drop_last() =~= env.take(k));
        lemma_read_env_prefix(env, k + 1, key);
    } else {
        assert(env.take(k) =~= env);
    }
}

/// What the widget does with the inhibitor when a state arrives.
#[derive(Debug, Clone, Copy, PartialEq, Eq, Structural)]
pub enum InhibitTransition {
    /// Inhibition turned on: take the inhibitor (and toggle back off if
    /// it cannot be had).
    Acquire,
    /// Inhibition turned off: let the inhibitor go.
    Release,
    /// Nothing changed.
    Keep,
}

/// The transition from the last state's activity to the new one's.
pub fn transition(was_active: bool, active: bool) -> (r: InhibitTransition)
    ensures
        r == if was_active == active {
            InhibitTransition::Keep
        } else if active {
            InhibitTransition::Acquire
        } else {
            InhibitTransition::Release
        },
{
    if was_active == active {
        InhibitTransition::Keep
    } else if active {
        InhibitTransition::Acquire
    } else {
        InhibitTransition::Release
    }
}

} // verus!

//! Battery status as UPower reports it: the charge state, the remaining
//! time written in days, hours and minutes, and the texts shown on the bar
//! and in the popup.
use vstd::prelude::*;

use crate::decimal::{dec, dec_signed, i64_to_chars, push_dec};
use crate::text::{append_chars, chars_of, owned, replace_all, replace_str, string_of};

verus! {

/// The charge state of a battery, in UPower's numbering.
#[derive(Debug, Clone, Copy, PartialEq, Eq, Structural)]
pub enum BatteryState {
    Unknown,
    Charging,
    Discharging,
    Empty,
    FullyCharged,
    PendingCharge,
    PendingDischarge,
}

impl BatteryState {
    /// The number UPower uses for the state.
    pub open spec fn number(self) -> u32 {
        match self {
            BatteryState::Unknown => 0,
            BatteryState::Charging => 1,
            BatteryState::Discharging => 2,
            BatteryState::Empty => 3,
            BatteryState::FullyCharged => 4,
            BatteryState::PendingCharge => 5,
            BatteryState::PendingDischarge => 6,
        }
    }

    /// The state with UPower's number `number`; numbers above 6 name no
    /// state.
    pub fn try_from(number: u32) -> (r: Result<BatteryState, ()>)
        ensures
            r is Ok <==> number <= 6,
            r matches Ok(s) ==> s.number() == number,
    {
        if number == 0 {
            Ok(BatteryState::Unknown)
        } else if number == 1 {
            Ok(BatteryState::Charging)
        } else if number == 2 {
            Ok(BatteryState::Discharging)
        } else if number == 3 {
            Ok(BatteryState::Empty)
        } else if number == 4 {
            Ok(BatteryState::FullyCharged)
        } else if number == 5 {
            Ok(BatteryState::PendingCharge)
        } else if number == 6 {
            Ok(BatteryState::PendingDischarge)
        } else {
            Err(())
        }
    }

    /// The human-readable name of the state.
    pub open spec fn text(self) -> Seq<char> {
        match self {
            BatteryState::Unknown => "Unknown"@,
            BatteryState::Charging => "Charging"@,
            BatteryState::Discharging => "Discharging"@,
            BatteryState::Empty => "Empty"@,
            BatteryState::FullyCharged => "Fully charged"@,
            BatteryState::PendingCharge => "Pending charge"@,
            BatteryState::PendingDischarge => "Pending discharge"@,
        }
    }

    /// The human-readable name of the state (what `Display` shows).
    pub fn to_text(&self) -> (r: String)
        ensures
            r@ == self.text(),
    {
        match self {
            BatteryState::Unknown => owned("Unknown"),
            BatteryState::Charging => owned("Charging"),
            BatteryState::Discharging => owned("Discharging"),
            BatteryState::Empty => owned("Empty"),
            BatteryState::FullyCharged => owned("Fully charged"),
            BatteryState::PendingCharge => owned("Pending charge"),
            BatteryState::PendingDischarge => owned("Pending discharge"),
        }
    }

    /// Whether the battery is (about to be) charging.
    pub open spec fn charging(self) -> bool {
        self == BatteryState::Charging || self == BatteryState::PendingCharge
    }

    /// Whether the battery is (about to be) charging.
    pub fn is_charging(&self) -> (r: bool)
        ensures
            r == self.charging(),
    {
        match self {
            BatteryState::Charging | BatteryState::PendingCharge => true,
            _ => false,
        }
    }
}

/// Seconds in a day.
pub const DAY: i64 = 86400;

/// Seconds in an hour.
pub const HOUR: i64 = 3600;

/// Seconds in a minute.
pub const MINUTE: i64 = 60;

/// The parts of a positive duration that are not zero: whole days, the
/// hours left over, then the minutes left over, each with its unit letter.
pub open spec fn time_parts(s: nat) -> Seq<Seq<char>> {
    let days = s / 86400;
    let hours = (s % 86400) / 3600;
    let minutes = (s % 3600) / 60;
    (if days > 0 { seq![dec(days).push('d')] } else { seq![] }) + (if hours > 0 {
        seq![dec(hours).push('h')]
    } else {
        seq![]
    }) + (if minutes > 0 { seq![dec(minutes).push('m')] } else { seq![] })
}

/// The parts joined by single spaces.
pub open spec fn join_spaced(parts: Seq<Seq<char>>) -> Seq<char>
    decreases parts.len(),
{
    if parts.len() == 0 {
        seq![]
    } else if parts.len() == 1 {
        parts[0]
    } else {
        join_spaced(parts.drop_last()) + seq![' '] + parts.last()
    }
}

/// A duration in seconds as `Nd Nh Nm`, leaving out the zero parts and the
/// leftover seconds; empty when the duration is not positive.
pub open spec fn spec_seconds_to_string(seconds: int) -> Seq<char> {
    if seconds <= 0 {
        seq![]
    } else {
        join_spaced(time_parts(seconds as nat))
    }
}

/// Appends `n` followed by `unit` to `out` as the next part of a spaced
/// list.
fn push_part(out: &mut Vec<char>, parts: Ghost<Seq<Seq<char>>>, n: u64, unit: char)
    requires
        old(out)@ == join_spaced(parts@),
        forall|i: int| 0 <= i < parts@.len() ==> #[trigger] parts@[i].len() > 0,
    ensures
        final(out)@ == join_spaced(parts@.push(dec(n as nat).push(unit))),
{
    let ghost part = dec(n as nat).push(unit);
    if out.len() > 0 {
        out.push(' ');
    }
    push_dec(out, n);
    out.push(unit);
    proof {
        let ps = parts@.push(part);
        assert(ps.drop_last() =~= parts@);
        if parts@.len() == 0 {
            assert(out@ =~= part);
        } else {
            assert(parts@[0].len() > 0);
            assert(join_spaced(parts@).len() > 0) by {
                lemma_join_nonempty(parts@);
            }
            assert(out@ =~= join_spaced(parts@) + seq![' '] + part);
        }
    }
}

/// Joining parts that are not empty gives a non-empty text.
proof fn lemma_join_nonempty(parts: Seq<Seq<char>>)
    requires
        parts.len() > 0,
        forall|i: int| 0 <= i < parts.len() ==> #[trigger] parts[i].len() > 0,
    ensures
        join_spaced(parts).len() > 0,
    decreases parts.len(),
{
    if parts.len() > 1 {
        assert(parts.last().len() > 0) by {
            assert(parts[parts.len() - 1].len() > 0);
        }
    } else {
        assert(parts[0].len() > 0);
    }
}

/// Formats a duration in seconds as days, hours and minutes, for example
/// `1d 2h 3m`.
pub fn seconds_to_string(seconds: i64) -> (r: String)
    ensures
        r@ == spec_seconds_to_string(seconds as int),
{
    let mut out: Vec<char> = Vec::new();
    if seconds <= 0 {
        return string_of(&out);
    }
    let ghost s = seconds as nat;
    let days = seconds / DAY;
    let hours = (seconds % DAY) / HOUR;
    let minutes = (seconds % HOUR) / MINUTE;
    let ghost p1: Seq<Seq<char>> = if days > 0 { seq![dec(days as nat).push('d')] } else { seq![] };
    let ghost p2: Seq<Seq<char>> = if hours > 0 { seq![dec(hours as nat).push('h')] } else { seq![] };
    let ghost p3: Seq<Seq<char>> = if minutes > 0 { seq![dec(minutes as nat).push('m')] } else { seq![] };
    if days > 0 {
        push_part(&mut out, Ghost(Seq::empty()), days as u64, 'd');
        assert(Seq::<Seq<char>>::empty().push(dec(days as nat).push('d')) =~= p1);
    }
    assert(out@ == join_spaced(p1));
    if hours > 0 {
        push_part(&mut out, Ghost(p1), hours as u64, 'h');
        assert(p1.push(dec(hours as nat).push('h')) =~= p1 + p2);
    } else {
        assert(p1 + p2 =~= p1);
    }
    assert(out@ == join_spaced(p1 + p2));
    if minutes > 0 {
        push_part(&mut out, Ghost(p1 + p2), minutes as u64, 'm');
        assert((p1 + p2).push(dec(minutes as nat).push('m')) =~= p1 + p2 + p3);
    } else {
        assert(p1 + p2 + p3 =~= p1 + p2);
    }
    assert(time_parts(s) == p1 + p2 + p3);
    string_of(&out)
}

/// The text for the bar's label: the format with `{percentage}`,
/// `{time_remaining}` (to full while charging, else to empty) and
/// `{state}` replaced, in that order.
pub open spec fn spec_battery_label(
    format: Seq<char>,
    percentage: int,
    state: BatteryState,
    time_to_full: int,
    time_to_empty: int,
) -> Seq<char> {
    let remaining = spec_seconds_to_string(
        if state.charging() { time_to_full } else { time_to_empty },
    );
    replace_all(
        replace_all(replace_all(format, "{percentage}"@, dec_signed(percentage)), "{time_remaining}"@, remaining),
        "{state}"@,
        state.text(),
    )
}

/// Fills the label format with the rounded charge percentage, the time
/// remaining and the state.
pub fn battery_label(
    format: &str,
    percentage: i64,
    state: BatteryState,
    time_to_full: i64,
    time_to_empty: i64,
) -> (r: String)
    ensures
        r@ == spec_battery_label(format@, percentage as int, state, time_to_full as int, time_to_empty as int),
{
    let remaining = if state.is_charging() {
        seconds_to_string(time_to_full)
    } else {
        seconds_to_string(time_to_empty)
    };
    let pct = string_of(&i64_to_chars(percentage));
    let s1 = replace_str(format, "{percentage}", pct.as_str());
    let s2 = replace_str(s1.as_str(), "{time_remaining}", remaining.as_str());
    let st = state.to_text();
    replace_str(s2.as_str(), "{state}", st.as_str())
}

/// The popup's details line: the time to full while charging, the time
/// to empty while discharging, each only when it is positive; otherwise
/// nothing.
pub open spec fn spec_popup_details(state: BatteryState, time_to_full: int, time_to_empty: int) -> Seq<char> {
    match state {
        BatteryState::Charging | BatteryState::PendingCharge => if time_to_full > 0 {
            "Full in "@ + spec_seconds_to_string(time_to_full)
        } else {
            seq![]
        },
        BatteryState::Discharging | BatteryState::PendingDischarge => if time_to_empty > 0 {
            "Empty in "@ + spec_seconds_to_string(time_to_empty)
        } else {
            seq![]
        },
        _ => seq![],
    }
}

/// The popup's details line for a battery state and its times.
pub fn popup_details(state: BatteryState, time_to_full: i64, time_to_empty: i64) -> (r: String)
    ensures
        r@ == spec_popup_details(state, time_to_full as int, time_to_empty as int),
{
    let (prefix, secs) = match state {
        BatteryState::Charging | BatteryState::PendingCharge => ("Full in ", time_to_full),
        BatteryState::Discharging | BatteryState::PendingDischarge => ("Empty in ", time_to_empty),
        _ => {
            return String::new();
        },
    };
    if secs <= 0 {
        return String::new();
    }
    let mut out = chars_of(prefix);
    let t = seconds_to_string(secs);
    let tv = chars_of(t.as_str());
    append_chars(&mut out, &tv);
    string_of(&out)
}

} // verus!

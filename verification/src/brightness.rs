//! Screen and keyboard brightness: where the level is read from, the
//! label's format, and the new level after scrolling.
use vstd::prelude::*;

use crate::decimal::dec_signed;
use crate::text::{owned, replace_all, replace_str, string_of};

verus! {

/// Where the brightness is read from and written to.
#[derive(Debug, Clone)]
pub enum BrightnessDataSource {
    /// The keyboard backlight.
    Keyboard,
    /// A device of a systemd subsystem (`backlight`, `leds`), by name or
    /// the subsystem's first device.
    Systemd { subsystem: String, name: Option<String> },
}

impl BrightnessDataSource {
    /// The first backlight device.
    pub fn default() -> (r: BrightnessDataSource)
        ensures
            r matches BrightnessDataSource::Systemd { subsystem, name } && subsystem@ == "backlight"@ && name is None,
    {
        BrightnessDataSource::Systemd { subsystem: owned("backlight"), name: None }
    }
}

/// Why the brightness cannot be read or written through systemd.
#[derive(Debug, Clone, Copy, PartialEq, Eq, Structural)]
pub enum SystemdError {
    NoResourceName,
}

impl SystemdError {
    /// The error's message.
    pub fn to_text(&self) -> (r: String)
        ensures
            r@ == "No Resource name was provided and no resource name could be resolved for your subsystem"@,
    {
        owned("No Resource name was provided and no resource name could be resolved for your subsystem")
    }
}

/// The device name to use: the configured one, else the subsystem's
/// default, else an error.
pub fn resource_name(name: &Option<String>, default_name: &Option<String>) -> (r: Result<String, SystemdError>)
    ensures
        match (*name, *default_name) {
            (Some(n), _) => r matches Ok(s) && s@ == n@,
            (None, Some(d)) => r matches Ok(s) && s@ == d@,
            (None, None) => r == Err::<String, SystemdError>(SystemdError::NoResourceName),
        },
{
    match name {
        Some(n) => Ok(n.clone()),
        None => match default_name {
            Some(d) => Ok(d.clone()),
            None => Err(SystemdError::NoResourceName),
        },
    }
}

/// A brightness profile: the label's format and an optional icon.
#[derive(Debug, Clone)]
pub struct BrightnessProfile {
    pub format: String,
    pub icon_label: Option<String>,
}

impl BrightnessProfile {
    /// The percentage, no icon.
    pub fn default() -> (r: BrightnessProfile)
        ensures
            r.format@ == "{percentage}%"@,
            r.icon_label is None,
    {
        BrightnessProfile { format: owned("{percentage}%"), icon_label: None }
    }

    /// The percentage with an icon.
    pub fn with_icon(icon: &str) -> (r: BrightnessProfile)
        ensures
            r.format@ == "{percentage}%"@,
            r.icon_label matches Some(i) && i@ == icon@,
    {
        BrightnessProfile { format: owned("{percentage}%"), icon_label: Some(owned(icon)) }
    }

    /// The label: the format with the rounded percentage.
    pub fn label(&self, percentage: i64) -> (r: String)
        ensures
            r@ == replace_all(self.format@, "{percentage}"@, dec_signed(percentage as int)),
    {
        let p = string_of(&crate::decimal::i64_to_chars(percentage));
        replace_str(self.format.as_str(), "{percentage}", p.as_str())
    }
}

/// The level after scrolling `num_steps` steps of a hundredth of the
/// maximum (at least 1), kept between 0 and the maximum.
pub open spec fn spec_scrolled(current: int, max: int, num_steps: int) -> int {
    let step = if max / 100 >= 1 { max / 100 } else { 1 };
    let raw = current - num_steps * step;
    let low = if raw >= 0 { raw } else { 0 };
    if low <= max { low } else { max }
}

/// The step of one scroll notch: a hundredth of the maximum, at least 1.
pub open spec fn step_of(max: int) -> int {
    if max / 100 >= 1 { max / 100 } else { 1 }
}

/// The new brightness level after scrolling (the arithmetic must fit in
/// `i32`, as it does for a scroll of a few notches).
pub fn scrolled_brightness(current: i32, max: i32, num_steps: i32) -> (r: i32)
    requires
        i32::MIN <= num_steps * step_of(max as int) <= i32::MAX,
        i32::MIN <= current - num_steps * step_of(max as int) <= i32::MAX,
    ensures
        r == spec_scrolled(current as int, max as int, num_steps as int),
{
    let step: i32 = if max / 100 >= 1 { max / 100 } else { 1 };
    let raw = current - num_steps * step;
    let low = if raw >= 0 { raw } else { 0 };
    if low <= max { low } else { max }
}

} // verus!

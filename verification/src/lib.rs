//! Verified core logic of a status bar: format-string parsing, state
//! merging, menu-model updates and the small formatting helpers the bar
//! modules share.
use vstd::prelude::*;

pub mod battery;
pub mod bindmode;
pub mod bluetooth;
pub mod brightness;
pub mod clipboard;
pub mod clock;
pub mod custom;
pub mod decimal;
pub mod focused;
pub mod identifiers;
pub mod inhibit;
pub mod keys;
pub mod launcher;
pub mod menu;
pub mod mpd;
pub mod music;
pub mod networkmanager;
pub mod notifications;
pub mod script;
pub mod sysinfo;
pub mod text;
pub mod tray;
pub mod tray_click;
pub mod volume;

verus! {

} // verus!

//! The launcher module: items for applications, their windows, and how
//! window-manager events change them.
use vstd::prelude::*;

pub mod buttons;
pub mod controller;
pub mod item;
pub mod maps;
pub mod open_state;
pub mod popup;

verus! {

/// What the window manager reports about one toplevel window.
#[derive(Debug, Clone)]
pub struct ToplevelInfo {
    pub id: usize,
    pub app_id: String,
    pub title: String,
    pub focused: bool,
}

} // verus!

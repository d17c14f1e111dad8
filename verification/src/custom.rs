//! Custom widgets: reading an orientation from the configuration.
use vstd::prelude::*;

use crate::text::{owned, str_eq};

verus! {

/// The direction a box lays out its children.
#[derive(Debug, Clone, Copy, PartialEq, Eq, Structural)]
pub enum Orientation {
    Horizontal,
    Vertical,
}

/// The lowercase form of a text (`str::to_lowercase`, which follows the
/// Unicode case tables).
pub uninterp spec fn lowercase(s: Seq<char>) -> Seq<char>;

/// `str::to_lowercase`.
#[verifier::external_body]
fn to_lowercase(s: &str) -> (r: String)
    ensures
        r@ == lowercase(s@),
{
    s.to_lowercase()
}

/// The orientation a configuration string names, case-insensitively:
/// `horizontal` or `h`, `vertical` or `v`.
pub open spec fn spec_orientation(s: Seq<char>) -> Option<Orientation> {
    let l = lowercase(s);
    if l == "horizontal"@ || l == "h"@ {
        Some(Orientation::Horizontal)
    } else if l == "vertical"@ || l == "v"@ {
        Some(Orientation::Vertical)
    } else {
        None
    }
}

/// Attempts to parse an orientation from the configuration.
pub fn try_get_orientation(orientation: &str) -> (r: Result<Orientation, String>)
    ensures
        match spec_orientation(orientation@) {
            Some(o) => r == Ok::<Orientation, String>(o),
            None => r matches Err(e) && e@ == "Invalid orientation string in config"@,
        },
{
    let l = to_lowercase(orientation);
    if str_eq(l.as_str(), "horizontal") || str_eq(l.as_str(), "h") {
        Ok(Orientation::Horizontal)
    } else if str_eq(l.as_str(), "vertical") || str_eq(l.as_str(), "v") {
        Ok(Orientation::Vertical)
    } else {
        Err(owned("Invalid orientation string in config"))
    }
}

} // verus!

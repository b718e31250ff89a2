//! Display decisions that do not depend on the terminal library.

use vstd::prelude::*;
use crate::text::same_text;

verus! {

/// The colour in which a system's security class is shown.
#[derive(Debug, Clone, Copy, PartialEq, Eq)]
pub enum Highlight {
    Green,
    Yellow,
    Red,
    Magenta,
}

/// High-sec green, low-sec yellow, null-sec red, anything else (wormhole space) magenta.
pub open spec fn highlight_of(label: Seq<char>) -> Highlight {
    if label == "High-Sec"@ {
        Highlight::Green
    } else if label == "Low-Sec"@ {
        Highlight::Yellow
    } else if label == "Null-Sec"@ {
        Highlight::Red
    } else {
        Highlight::Magenta
    }
}

pub fn highlight_for_system(label: &str) -> (r: Highlight)
    ensures
        r == highlight_of(label@),
{
    if same_text(label, "High-Sec") {
        Highlight::Green
    } else if same_text(label, "Low-Sec") {
        Highlight::Yellow
    } else if same_text(label, "Null-Sec") {
        Highlight::Red
    } else {
        Highlight::Magenta
    }
}

/// The share of the screen, in percent, left on each side of a centred popup
/// that takes `percent` of it.
pub fn popup_margin(percent: u16) -> (r: u16)
    requires
        percent <= 100,
    ensures
        r == (100 - percent) / 2,
{
    (100 - percent) / 2
}

} // verus!

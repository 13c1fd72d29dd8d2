//! Default values of the tip overlay.

use vstd::prelude::*;

verus! {

/// Width of the overlay window in logical pixels.
pub const WINDOW_WIDTH: u32 = 160;

/// Height of the overlay window in logical pixels.
pub const WINDOW_HEIGHT: u32 = 40;

/// Seconds a tip stays on screen when it sets no `showTime`.
pub const DEFAULT_TIP_SHOW_TIME: u64 = 5u64;

/// Number of colors in the default palette.
pub const DEFAULT_TIP_COLOR_COUNT: usize = 6;

/// The default palette color at a position of the palette.
pub open spec fn spec_default_tip_color(i: int) -> Seq<char> {
    if i == 0 {
        "#33E078"@
    } else if i == 1 {
        "#4DA3FF"@
    } else if i == 2 {
        "#A879FF"@
    } else if i == 3 {
        "#FFB347"@
    } else if i == 4 {
        "#FF6685"@
    } else {
        "#37D6D0"@
    }
}

/// The default palette color at position `i` of the palette.
pub fn default_tip_color(i: usize) -> (c: &'static str)
    requires
        i < DEFAULT_TIP_COLOR_COUNT,
    ensures
        c@ == spec_default_tip_color(i as int),
{
    if i == 0 {
        "#33E078"
    } else if i == 1 {
        "#4DA3FF"
    } else if i == 2 {
        "#A879FF"
    } else if i == 3 {
        "#FFB347"
    } else if i == 4 {
        "#FF6685"
    } else {
        "#37D6D0"
    }
}

} // verus!

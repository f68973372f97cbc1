//! Window-theme decisions.  The windowing itself — event polling,
//! surface creation — is the driver layer's; the library owns the one
//! decision made about a window's appearance.

use vstd::prelude::*;

verus! {

/// Whether a window's title bar should be drawn dark, from the
/// system's foreground (text) color channels: a bright, green-heavy
/// foreground means the system theme is dark.  The weighted
/// luminance `5·green + 2·red + blue` is compared against the
/// midpoint `8·128`.
pub fn prefers_dark_title_bar(red: u32, green: u32, blue: u32) -> (dark: bool)
    requires
        red <= 255,
        green <= 255,
        blue <= 255,
    ensures
        dark == (5 * green + 2 * red + blue > 8 * 128),
{
    (5 * green + 2 * red + blue) > 8 * 128
}

} // verus!

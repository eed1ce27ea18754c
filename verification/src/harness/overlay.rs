//! Whether the candidate list is on the screen.

use vstd::prelude::*;

use crate::strings::same_text;

verus! {

/// The program that owns the list's window.
pub const UI_IMAGE: &'static str = "ui.exe";

/// Whether a window that has the list's title is the list's: its process runs
/// the program that owns it.
pub fn is_candidate_window(image: Option<&str>) -> (owned: bool)
    ensures
        owned == (image is Some && image->0@ == UI_IMAGE@),
{
    match image {
        Some(image) => same_text(image, UI_IMAGE),
        None => false,
    }
}

/// Whether the list is on the screen, by whether its window is visible. Where
/// there is no window it is not.
pub fn candidates_visible(window: Option<bool>) -> (visible: bool)
    ensures
        visible == (window == Some(true)),
{
    match window {
        Some(visible) => visible,
        None => false,
    }
}

} // verus!

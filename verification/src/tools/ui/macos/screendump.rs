//! Window lookup for the macOS UI tools.
use vstd::prelude::*;
use crate::tools::screendump::macos::{info_rect, is_first_match, not_found_error, window_matches};
use crate::tools::screendump::{rect_view, WindowRect};
pub use crate::tools::screendump::macos::WindowInfo;

verus! {

/// Get a window's rectangle by ID, among the listed windows `windows`: the
/// first window that answers to the identifier.
pub fn get_macos_window_rect(window_id: &str, windows: &Vec<WindowInfo>) -> (r: Result<
    WindowRect,
    String,
>)
    ensures
        match r {
            Ok(w) => exists|i: int|
                is_first_match(windows@, window_id@, i) && rect_view(w) == info_rect(
                    #[trigger] windows@[i],
                ),
            Err(e) => e@ == not_found_error(window_id@) && forall|i: int|
                0 <= i < windows@.len() ==> !window_matches(#[trigger] windows@[i], window_id@),
        },
{
    crate::tools::screendump::macos::get_macos_window_rect(window_id, windows)
}

} // verus!

//! Window lookup over the windows that the accessibility API lists.
use vstd::prelude::*;
use crate::text::{self, contains, parse_bounded, split_on, views};
use crate::tools::screendump::{rect_view, WindowRect};

verus! {

/// A window as the accessibility API lists it.
pub struct WindowInfo {
    /// Name of the owning application
    pub app_name: String,
    /// Title of the window
    pub window_title: String,
    /// Position (x, y)
    pub position: (i32, i32),
    /// Size (width, height)
    pub size: (i32, i32),
    /// Index of the window among its application's windows, from 1
    pub index: usize,
}

/// The window named by an `App:Index` identifier, if the identifier has
/// that form: the application and the index.
pub open spec fn app_index_of(window_id: Seq<char>) -> Option<(Seq<char>, nat)> {
    let parts = split_on(window_id, ':');
    if parts.len() == 2 && parse_bounded(parts[1], usize::MAX as int) is Some {
        Some((parts[0], parse_bounded(parts[1], usize::MAX as int)->0))
    } else {
        None
    }
}

/// Index of the first window matching `window_id` in `ws`: by application
/// and index for an `App:Index` identifier, else by a title that contains
/// the identifier.
pub open spec fn is_first_match(ws: Seq<WindowInfo>, window_id: Seq<char>, i: int) -> bool {
    0 <= i < ws.len() && window_matches(ws[i], window_id) && forall|j: int|
        0 <= j < i ==> !window_matches(#[trigger] ws[j], window_id)
}

/// Whether window `w` answers to `window_id`.
pub open spec fn window_matches(w: WindowInfo, window_id: Seq<char>) -> bool {
    match app_index_of(window_id) {
        Some((app, idx)) => w.app_name@ == app && w.index == idx,
        None => contains(w.window_title@, window_id),
    }
}

/// The rectangle of a window.
pub open spec fn info_rect(w: WindowInfo) -> (Seq<char>, Seq<char>, int, int, int, int) {
    (
        w.app_name@,
        w.window_title@,
        w.position.0 as int,
        w.position.1 as int,
        w.size.0 as int,
        w.size.1 as int,
    )
}

/// The error reported when no window answers to `window_id`.
pub open spec fn not_found_error(window_id: Seq<char>) -> Seq<char> {
    match app_index_of(window_id) {
        Some(_) => "Window with ID '"@ + window_id + "' not found"@,
        None => "Window with title containing '"@ + window_id + "' not found"@,
    }
}

/// Get a window's rectangle by ID, among the listed windows `windows`: the
/// first window that answers to the identifier.
pub fn get_macos_window_rect(window_id: &str, windows: &Vec<WindowInfo>) -> (r: Result<
    WindowRect,
    String,
>)
    ensures
        match r {
            Ok(w) => exists|i: int|
                is_first_match(windows@, window_id@, i) && rect_view(w) == info_rect(
                    #[trigger] windows@[i],
                ),
            Err(e) => e@ == not_found_error(window_id@) && forall|i: int|
                0 <= i < windows@.len() ==> !window_matches(#[trigger] windows@[i], window_id@),
        },
{
    let id = text::str_chars(window_id);
    let parts = text::split_char(&id, ':');
    let by_index: Option<usize> = if parts.len() == 2 {
        text::parse_usize(&parts[1])
    } else {
        None
    };
    let mut i: usize = 0;
    while i < windows.len()
        invariant
            i <= windows.len(),
            id@ == window_id@,
            views(parts@) == split_on(id@, ':'),
            by_index is Some <==> app_index_of(window_id@) is Some,
            by_index matches Some(n) ==> app_index_of(window_id@) == Some((parts@[0]@, n as nat)),
            forall|j: int| 0 <= j < i ==> !window_matches(#[trigger] windows@[j], window_id@),
        decreases windows.len() - i,
    {
        let w = &windows[i];
        let hit = match by_index {
            Some(n) => {
                let name = text::str_chars(w.app_name.as_str());
                text::chars_eq(&name, &parts[0]) && w.index == n
            },
            None => {
                let title = text::str_chars(w.window_title.as_str());
                text::contains_chars(&title, &id)
            },
        };
        if hit {
            let r = (w.app_name.clone(), w.window_title.clone(), w.position.0, w.position.1, w.size.0, w.size.1);
            assert(is_first_match(windows@, window_id@, i as int));
            return Ok(r);
        }
        i = i + 1;
    }
    let mut m = if by_index.is_some() {
        text::str_chars("Window with ID '")
    } else {
        text::str_chars("Window with title containing '")
    };
    text::append_chars(&mut m, &id);
    text::append_str(&mut m, "' not found");
    Err(text::chars_to_string(&m))
}

} // verus!

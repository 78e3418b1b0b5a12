//! Commands of the screendump tool, and reading of the window rectangle
//! that the window-lookup script prints.
use vstd::prelude::*;
use crate::text::{self, join, lowercase, parse_int_bounded, split_on, trim, views, words};
use crate::tools::{is_error_with, ToolResult};

pub mod applescript;
pub mod macos;

verus! {

/// Commands supported by the screendump tool
#[derive(Debug, Clone)]
pub enum ScreendumpCommand {
    /// List all windows with identifiers
    ListWindows,
    /// Capture details for a specific window
    WindowDetails(String),
    /// Capture full screen hierarchy (all windows)
    FullScreen,
}

/// A screendump command, with its window identifier as characters.
pub enum ScreendumpModel {
    ListWindows,
    WindowDetails(Seq<char>),
    FullScreen,
}

impl View for ScreendumpCommand {
    type V = ScreendumpModel;

    open spec fn view(&self) -> ScreendumpModel {
        match self {
            ScreendumpCommand::ListWindows => ScreendumpModel::ListWindows,
            ScreendumpCommand::WindowDetails(id) => ScreendumpModel::WindowDetails(id@),
            ScreendumpCommand::FullScreen => ScreendumpModel::FullScreen,
        }
    }
}

/// The command that the arguments describe: nothing lists the windows;
/// `fullscreen` or `full` (where `full_screen` is offered) dumps all
/// windows; `list` lists; `window` or `win` followed by words names a window
/// by those words (alone it lists); a first word that is an `i32` names a
/// window by that word; anything else names a window by the whole text.
pub open spec fn screendump_command_of(args: Seq<char>, full_screen: bool) -> ScreendumpModel {
    let a = trim(args);
    let parts = words(a);
    if a.len() == 0 || parts.len() == 0 {
        ScreendumpModel::ListWindows
    } else {
        let kw = lowercase(parts[0]);
        if full_screen && (kw == "fullscreen"@ || kw == "full"@) {
            ScreendumpModel::FullScreen
        } else if kw == "list"@ {
            ScreendumpModel::ListWindows
        } else if kw == "window"@ || kw == "win"@ {
            if parts.len() > 1 {
                ScreendumpModel::WindowDetails(join(parts.skip(1), " "@))
            } else {
                ScreendumpModel::ListWindows
            }
        } else if parse_int_bounded(kw, i32::MIN as int, i32::MAX as int) is Some {
            ScreendumpModel::WindowDetails(kw)
        } else {
            ScreendumpModel::WindowDetails(a)
        }
    }
}

/// Reads a screendump command from the arguments; `fullscreen` is a
/// command only where `full_screen`.
pub fn screendump_command_from(args: &str, full_screen: bool) -> (r: ScreendumpCommand)
    ensures
        r@ == screendump_command_of(args@, full_screen),
{
    let a = text::trim_chars(&text::str_chars(args));
    if a.len() == 0 {
        return ScreendumpCommand::ListWindows;
    }
    let parts = text::split_whitespace(&a);
    if parts.len() == 0 {
        return ScreendumpCommand::ListWindows;
    }
    let kw = text::to_lowercase(&parts[0]);
    if full_screen && (text::chars_eq_str(&kw, "fullscreen") || text::chars_eq_str(&kw, "full")) {
        ScreendumpCommand::FullScreen
    } else if text::chars_eq_str(&kw, "list") {
        ScreendumpCommand::ListWindows
    } else if text::chars_eq_str(&kw, "window") || text::chars_eq_str(&kw, "win") {
        if parts.len() > 1 {
            ScreendumpCommand::WindowDetails(text::chars_to_string(&text::join_from(&parts, 1, " ")))
        } else {
            ScreendumpCommand::ListWindows
        }
    } else if text::parse_i32(&kw).is_some() {
        ScreendumpCommand::WindowDetails(text::chars_to_string(&kw))
    } else {
        ScreendumpCommand::WindowDetails(text::chars_to_string(&a))
    }
}

/// Parse the command arguments
pub fn parse_command(args: &str) -> (r: ScreendumpCommand)
    ensures
        r@ == screendump_command_of(args@, true),
{
    screendump_command_from(args, true)
}

/// A window's application, title, position and size.
pub type WindowRect = (String, String, i32, i32, i32, i32);

/// The rectangle that the window-lookup script printed, in the form
/// `App|Title|X|Y|Width|Height`; or the script's error text, or the error
/// the output's form gives.
pub open spec fn rect_of_output(output: Seq<char>) -> Result<
    (Seq<char>, Seq<char>, int, int, int, int),
    Seq<char>,
> {
    if text::starts_with(output, "ERROR:"@) {
        Err(trim(output))
    } else {
        let parts = split_on(trim(output), '|');
        if parts.len() == 6 {
            let b = |s: Seq<char>| parse_int_bounded(s, i32::MIN as int, i32::MAX as int);
            if b(parts[2]) is None {
                Err("Invalid X coordinate"@)
            } else if b(parts[3]) is None {
                Err("Invalid Y coordinate"@)
            } else if b(parts[4]) is None {
                Err("Invalid width"@)
            } else if b(parts[5]) is None {
                Err("Invalid height"@)
            } else {
                Ok(
                    (
                        parts[0],
                        parts[1],
                        b(parts[2])->0,
                        b(parts[3])->0,
                        b(parts[4])->0,
                        b(parts[5])->0,
                    ),
                )
            }
        } else {
            Err("Invalid window rect format: "@ + output)
        }
    }
}

/// The view of a window rectangle.
pub open spec fn rect_view(r: WindowRect) -> (Seq<char>, Seq<char>, int, int, int, int) {
    (r.0@, r.1@, r.2 as int, r.3 as int, r.4 as int, r.5 as int)
}

/// Reads the window rectangle from the output of the window-lookup script.
pub fn parse_window_rect(output: &str) -> (r: Result<WindowRect, String>)
    ensures
        match r {
            Ok(w) => rect_of_output(output@) == Ok::<_, Seq<char>>(rect_view(w)),
            Err(e) => rect_of_output(output@) == Err::<(Seq<char>, Seq<char>, int, int, int, int), _>(e@),
        },
{
    let o = text::str_chars(output);
    if text::has_prefix_str(&o, "ERROR:") {
        return Err(text::chars_to_string(&text::trim_chars(&o)));
    }
    let t = text::trim_chars(&o);
    let parts = text::split_char(&t, '|');
    if parts.len() != 6 {
        let mut m = text::str_chars("Invalid window rect format: ");
        text::append_chars(&mut m, &o);
        return Err(text::chars_to_string(&m));
    }
    let x = match text::parse_i32(&parts[2]) {
        Some(v) => v,
        None => {
            return Err(text::chars_to_string(&text::str_chars("Invalid X coordinate")));
        },
    };
    let y = match text::parse_i32(&parts[3]) {
        Some(v) => v,
        None => {
            return Err(text::chars_to_string(&text::str_chars("Invalid Y coordinate")));
        },
    };
    let width = match text::parse_i32(&parts[4]) {
        Some(v) => v,
        None => {
            return Err(text::chars_to_string(&text::str_chars("Invalid width")));
        },
    };
    let height = match text::parse_i32(&parts[5]) {
        Some(v) => v,
        None => {
            return Err(text::chars_to_string(&text::str_chars("Invalid height")));
        },
    };
    let app = text::chars_to_string(&parts[0]);
    let title = text::chars_to_string(&parts[1]);
    Ok((app, title, x, y, width, height))
}

/// How a screendump command is named in messages.
pub open spec fn command_description(c: ScreendumpModel) -> Seq<char> {
    match c {
        ScreendumpModel::ListWindows => "list windows"@,
        ScreendumpModel::WindowDetails(id) => "window details for '"@ + id + "'"@,
        ScreendumpModel::FullScreen => "full screen"@,
    }
}

fn describe(command: &ScreendumpCommand) -> (r: Vec<char>)
    ensures
        r@ == command_description(command@),
{
    match command {
        ScreendumpCommand::ListWindows => text::str_chars("list windows"),
        ScreendumpCommand::WindowDetails(id) => {
            let mut m = text::str_chars("window details for '");
            text::append_str(&mut m, id.as_str());
            text::append_str(&mut m, "'");
            m
        },
        ScreendumpCommand::FullScreen => text::str_chars("full screen"),
    }
}

/// The screendump tool on Windows, where UI capture is not available.
pub fn capture_windows_ui(command: ScreendumpCommand) -> (r: ToolResult)
    ensures
        is_error_with(
            r,
            "Windows UI capture ("@ + command_description(command@) + ") not yet implemented"@,
        ),
{
    let mut m = text::str_chars("Windows UI capture (");
    text::append_chars(&mut m, &describe(&command));
    text::append_str(&mut m, ") not yet implemented");
    ToolResult::error(text::chars_to_string(&m))
}

/// The screendump tool on Linux, where UI capture is not available.
pub fn capture_linux_ui(command: ScreendumpCommand) -> (r: ToolResult)
    ensures
        is_error_with(
            r,
            "Linux UI capture ("@ + command_description(command@) + ") not yet implemented"@,
        ),
{
    let mut m = text::str_chars("Linux UI capture (");
    text::append_chars(&mut m, &describe(&command));
    text::append_str(&mut m, ") not yet implemented");
    ToolResult::error(text::chars_to_string(&m))
}

} // verus!

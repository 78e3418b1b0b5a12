//! The AppleScript programs that list windows, describe them and report
//! their rectangles. Running them is the application's part.
use vstd::prelude::*;
use crate::text::{self, decimal};
use crate::tools::screendump::macos::app_index_of;
use crate::tools::screendump::{ScreendumpCommand, ScreendumpModel};
use crate::tools::{is_error_with, ToolResult};

verus! {

/// The script that lists the visible windows, each with its identifier.
pub const LIST_WINDOWS_SCRIPT: &'static str = "osascript -e '\n    tell application \"System Events\"\n        set windowList to \"\"\n        set windowCount to 0\n        \n        -- Iterate through all visible applications\n        set visibleApps to application processes where visible is true\n        \n        repeat with currentApp in visibleApps\n            set appName to name of currentApp\n            \n            -- Get windows for this application\n            try\n                set appWindows to windows of currentApp\n                repeat with i from 1 to count of appWindows\n                    set currentWindow to window i of currentApp\n                    set windowTitle to name of currentWindow\n                    \n                    -- Create a unique window identifier (app name + index)\n                    set windowId to appName & \":\" & i\n                    \n                    -- Format: [ID] App Name: Window Title\n                    set windowCount to windowCount + 1\n                    set windowList to windowList & \"[\" & windowId & \"] \" & appName & \": \" & windowTitle & \"\n\"\n                end repeat\n            end try\n        end repeat\n        \n        -- Add usage note if windows were found\n        if windowCount > 0 then\n            set windowList to windowList & \"\nUse 'screendump window [ID]' or 'screendump window [Window Title]' to view details for a specific window.\"\n        else\n            set windowList to \"No visible windows found.\"\n        end if\n        \n        return windowList\n    end tell'";

/// The script that lists the visible applications with their windows.
pub const FULL_SCREEN_SCRIPT: &'static str = "osascript -e '\n    tell application \"System Events\"\n        set appList to \"\"\n        set visibleApps to application processes where visible is true\n        \n        repeat with currentApp in visibleApps\n            set appName to name of currentApp\n            set appList to appList & \"Application: \" & appName & \"\n\"\n            \n            try\n                repeat with i from 1 to count of windows of currentApp\n                    try\n                        set currentWindow to window i of currentApp\n                        set windowName to name of currentWindow\n                        set windowPosition to position of currentWindow\n                        set windowSize to size of currentWindow\n                        \n                        set appList to appList & \"  Window \" & i & \": \" & windowName & \"\n\"\n                        set appList to appList & \"    Position: \" & item 1 of windowPosition & \", \" & item 2 of windowPosition & \"\n\"\n                        set appList to appList & \"    Size: \" & item 1 of windowSize & \"×\" & item 2 of windowSize & \"\n\"\n                    end try\n                end repeat\n            end try\n            \n            set appList to appList & \"\n\"\n        end repeat\n        \n        return appList\n    end tell'";

/// The start of the script that describes a window found by its title.
pub const TITLE_DETAILS_HEAD: &'static str = "osascript -e '\n    tell application \"System Events\"\n        set targetId = ";

/// The end of the script that describes a window found by its title.
pub const TITLE_DETAILS_TAIL: &'static str = "\n        set foundWindow to false\n        set output to \"\"\n        \n        -- Try to find the window by the identifier\n        set visibleApps to application processes where visible is true\n        \n        repeat with currentApp in visibleApps\n            set appName to name of currentApp\n            \n            -- Check if this is a direct app:index reference\n            if targetId starts with appName & \":\" then\n                set indexStr to text ((length of appName) + 2) through -1 of targetId\n                try\n                    set windowIndex to indexStr as number\n                    if windowIndex > 0 and windowIndex <= count of windows of currentApp then\n                        set currentWindow to window windowIndex of currentApp\n                        set foundWindow to true\n                        \n                        -- Window information\n                        set output to \"Application: \" & appName & \"\n\"\n                        set windowName to name of currentWindow\n                        set windowPosition to position of currentWindow\n                        set windowSize to size of currentWindow\n                        \n                        set output to output & \"Window: \" & windowName & \"\n\"\n                        set output to output & \"Position: \" & item 1 of windowPosition & \", \" & item 2 of windowPosition & \"\n\"\n                        set output to output & \"Size: \" & item 1 of windowSize & \"×\" & item 2 of windowSize & \"\n\"\n                        \n                        -- Get UI elements in the window\n                        set output to output & \"\nUI Elements:\n\"\n                        try\n                            set uiElements to UI elements of currentWindow\n                            repeat with elem in uiElements\n                                set output to output & \"  Element:\n\"\n                                try\n                                    set output to output & \"    Type: \" & role of elem & \"\n\"\n                                end try\n                                try\n                                    if description of elem is not \"\" then\n                                        set output to output & \"    Description: \" & description of elem & \"\n\"\n                                    end if\n                                end try\n                                try\n                                    if value of elem is not \"\" then\n                                        set output to output & \"    Value: \" & value of elem & \"\n\"\n                                    end if\n                                end try\n                            end repeat\n                        end try\n                        \n                        exit repeat\n                    end if\n                end try\n            end if\n            \n            -- If not found by ID, check window titles\n            if not foundWindow then\n                try\n                    set windowList to windows of currentApp\n                    repeat with i from 1 to count of windowList\n                        set currentWindow to item i of windowList\n                        set windowTitle to name of currentWindow\n                        \n                        -- Check if window title contains our target\n                        if windowTitle contains targetId then\n                            set foundWindow to true\n                            \n                            -- Window information\n                            set output to \"Application: \" & appName & \"\n\"\n                            set output to output & \"Window: \" & windowTitle & \"\n\"\n                            set windowPosition to position of currentWindow\n                            set windowSize to size of currentWindow\n                            \n                            set output to output & \"Position: \" & item 1 of windowPosition & \", \" & item 2 of windowPosition & \"\n\"\n                            set output to output & \"Size: \" & item 1 of windowSize & \"×\" & item 2 of windowSize & \"\n\"\n                            \n                            -- Get UI elements in the window\n                            set output to output & \"\nUI Elements:\n\"\n                            try\n                                set uiElements to UI elements of currentWindow\n                                repeat with elem in uiElements\n                                    set output to output & \"  Element:\n\"\n                                    try\n                                        set output to output & \"    Type: \" & role of elem & \"\n\"\n                                    end try\n                                    try\n                                        if description of elem is not \"\" then\n                                            set output to output & \"    Description: \" & description of elem & \"\n\"\n                                        end if\n                                    end try\n                                    try\n                                        if value of elem is not \"\" then\n                                            set output to output & \"    Value: \" & value of elem & \"\n\"\n                                        end if\n                                    end try\n                                end repeat\n                            end try\n                            \n                            exit repeat\n                        end if\n                    end repeat\n                end try\n            end if\n            \n            -- If found the window, exit the loop\n            if foundWindow then\n                exit repeat\n            end if\n        end repeat\n        \n        -- Return appropriate message\n        if not foundWindow then\n            return \"Window '\" & targetId & \"' not found. Use 'screendump' without arguments to list available windows.\"\n        else\n            return output\n        end if\n    end tell'";

/// The start of the script that describes window `n` of an application.
pub const APP_WINDOW_HEAD: &'static str = "osascript -e '\n    tell application \"System Events\"\n        set targetApp = ";

/// Between the application and the window number, in that script.
pub const APP_WINDOW_MID: &'static str = "\n        set targetIndex = ";

/// The end of that script.
pub const APP_WINDOW_TAIL: &'static str = "\n        set foundWindow to false\n        set output to \"\"\n        \n        -- Try to find the application\n        try\n            set appProcess to first application process whose name is targetApp\n            \n            -- Check if the window index is valid\n            if targetIndex > 0 and targetIndex <= count of windows of appProcess then\n                set currentWindow to window targetIndex of appProcess\n                set foundWindow to true\n                \n                -- Window information\n                set output to \"Application: \" & targetApp & \"\n\"\n                set windowName to name of currentWindow\n                set windowPosition to position of currentWindow\n                set windowSize to size of currentWindow\n                \n                set output to output & \"Window: \" & windowName & \"\n\"\n                set output to output & \"Position: \" & item 1 of windowPosition & \", \" & item 2 of windowPosition & \"\n\"\n                set output to output & \"Size: \" & item 1 of windowSize & \"×\" & item 2 of windowSize & \"\n\"\n                \n                -- Get UI elements in the window\n                set output to output & \"\nUI Elements:\n\"\n                try\n                    set uiElements to UI elements of currentWindow\n                    repeat with elem in uiElements\n                        set output to output & \"  Element:\n\"\n                        try\n                            set output to output & \"    Type: \" & role of elem & \"\n\"\n                        end try\n                        try\n                            if description of elem is not \"\" then\n                                set output to output & \"    Description: \" & description of elem & \"\n\"\n                            end if\n                        end try\n                        try\n                            if value of elem is not \"\" then\n                                set output to output & \"    Value: \" & value of elem & \"\n\"\n                            end if\n                        end try\n                    end repeat\n                end try\n            else\n                set output to \"Window index \" & targetIndex & \" not found for application '\" & targetApp & \"'.\"\n            end if\n        on error\n            set output to \"Application '\" & targetApp & \"' not found or not accessible.\"\n        end try\n        \n        return output\n    end tell'";

/// The start of the script that gives the rectangle of window `n` of an application.
pub const RECT_APP_HEAD: &'static str = "osascript -e 'tell application \"System Events\"\nset targetApp to \"";

/// Between the application and the window number, in that script.
pub const RECT_APP_MID: &'static str = "\"\nset targetIndex to ";

/// The end of that script.
pub const RECT_APP_TAIL: &'static str = "\n\ntry\nset appProcess to first application process whose name is targetApp\n\nif targetIndex > 0 and targetIndex <= count of windows of appProcess then\nset currentWindow to window targetIndex of appProcess\nset windowTitle to name of currentWindow\nset windowPosition to position of currentWindow\nset windowSize to size of currentWindow\n\nset x to item 1 of windowPosition\nset y to item 2 of windowPosition\nset width to item 1 of windowSize\nset height to item 2 of windowSize\n\nreturn targetApp & \"|\" & windowTitle & \"|\" & x & \"|\" & y & \"|\" & width & \"|\" & height\nelse\nreturn \"ERROR: Window index \" & targetIndex & \" not found for application '\" & targetApp & \"'.\"\nend if\non error errMsg\nreturn \"ERROR: \" & errMsg\nend try\nend tell'";

/// The start of the script that gives the rectangle of a window found by its title.
pub const RECT_TITLE_HEAD: &'static str = "osascript -e 'tell application \"System Events\"\nset targetId to \"";

/// The end of that script.
pub const RECT_TITLE_TAIL: &'static str = "\"\nset foundWindow to false\n\nset visibleApps to application processes where visible is true\n\nrepeat with currentApp in visibleApps\nset appName to name of currentApp\n\n-- Check if this is a direct app:index reference\nif targetId starts with appName & \":\" then\nset indexStr to text ((length of appName) + 2) through -1 of targetId\ntry\nset windowIndex to indexStr as number\nif windowIndex > 0 and windowIndex <= count of windows of currentApp then\nset currentWindow to window windowIndex of currentApp\nset windowTitle to name of currentWindow\nset windowPosition to position of currentWindow\nset windowSize to size of currentWindow\n\nset x to item 1 of windowPosition\nset y to item 2 of windowPosition\nset width to item 1 of windowSize\nset height to item 2 of windowSize\n\nreturn appName & \"|\" & windowTitle & \"|\" & x & \"|\" & y & \"|\" & width & \"|\" & height\nend if\nend try\nend if\n\n-- If not found by ID, check window titles\nif not foundWindow then\ntry\nset windowList to windows of currentApp\nrepeat with i from 1 to count of windowList\nset currentWindow to item i of windowList\nset windowTitle to name of currentWindow\n\nif windowTitle contains targetId then\nset windowPosition to position of currentWindow\nset windowSize to size of currentWindow\n\nset x to item 1 of windowPosition\nset y to item 2 of windowPosition\nset width to item 1 of windowSize\nset height to item 2 of windowSize\n\nreturn appName & \"|\" & windowTitle & \"|\" & x & \"|\" & y & \"|\" & width & \"|\" & height\nend if\nend repeat\nend try\nend if\nend repeat\n\nreturn \"ERROR: Window '\" & targetId & \"' not found\"\nend tell'";

/// A literal as a string.
fn owned(s: &str) -> (r: String)
    ensures
        r@ == s@,
{
    text::chars_to_string(&text::str_chars(s))
}

/// `s` in double quotes.
pub open spec fn quoted(s: Seq<char>) -> Seq<char> {
    "\""@ + s + "\""@
}

/// Build AppleScript for listing all windows with identifiers
pub fn build_macos_list_windows_script() -> (r: String)
    ensures
        r@ == LIST_WINDOWS_SCRIPT@,
{
    owned(LIST_WINDOWS_SCRIPT)
}

/// Build AppleScript for capturing full screen UI hierarchy
pub fn build_macos_full_screen_script() -> (r: String)
    ensures
        r@ == FULL_SCREEN_SCRIPT@,
{
    owned(FULL_SCREEN_SCRIPT)
}

/// The application and window number that `window_id` names, where it is
/// of the form `App:N`.
pub fn window_index(window_id: &str) -> (r: Option<(String, usize)>)
    ensures
        match app_index_of(window_id@) {
            Some((app, n)) => r matches Some((a, m)) && a@ == app && m == n,
            None => r is None,
        },
{
    let parts = text::split_char(&text::str_chars(window_id), ':');
    if parts.len() == 2 {
        if let Some(n) = text::parse_usize(&parts[1]) {
            return Some((text::chars_to_string(&parts[0]), n));
        }
    }
    None
}

/// The script that describes window `n` of the application `app`.
pub open spec fn app_window_script_text(app: Seq<char>, n: nat) -> Seq<char> {
    APP_WINDOW_HEAD@ + quoted(app) + APP_WINDOW_MID@ + decimal(n) + APP_WINDOW_TAIL@
}

/// Build a script targeting a specific app and window index
pub fn build_macos_app_window_script(app_name: &str, window_index: usize) -> (r: String)
    ensures
        r@ == app_window_script_text(app_name@, window_index as nat),
{
    let mut m = text::str_chars(APP_WINDOW_HEAD);
    text::append_str(&mut m, "\"");
    text::append_str(&mut m, app_name);
    text::append_str(&mut m, "\"");
    text::append_str(&mut m, APP_WINDOW_MID);
    text::append_chars(&mut m, &text::decimal_chars(window_index as u64));
    text::append_str(&mut m, APP_WINDOW_TAIL);
    text::chars_to_string(&m)
}

/// The script that describes the window `window_id`.
pub open spec fn window_details_script_text(window_id: Seq<char>) -> Seq<char> {
    match app_index_of(window_id) {
        Some((app, n)) => app_window_script_text(app, n),
        None => TITLE_DETAILS_HEAD@ + quoted(window_id) + TITLE_DETAILS_TAIL@,
    }
}

/// Build AppleScript for capturing details of a specific window: by
/// application and window number for an identifier `App:N`, else by title.
pub fn build_macos_window_details_script(window_id: &str) -> (r: String)
    ensures
        r@ == window_details_script_text(window_id@),
{
    match window_index(window_id) {
        Some((app, n)) => build_macos_app_window_script(app.as_str(), n),
        None => {
            let mut m = text::str_chars(TITLE_DETAILS_HEAD);
            text::append_str(&mut m, "\"");
            text::append_str(&mut m, window_id);
            text::append_str(&mut m, "\"");
            text::append_str(&mut m, TITLE_DETAILS_TAIL);
            text::chars_to_string(&m)
        },
    }
}

/// Build AppleScript to get a window's rectangle: by application and window
/// number for an identifier `App:N`, else by title.
pub fn build_macos_window_rect_script(window_id: &str) -> (r: String)
    ensures
        r@ == match app_index_of(window_id@) {
            Some((app, n)) => RECT_APP_HEAD@ + app + RECT_APP_MID@ + decimal(n) + RECT_APP_TAIL@,
            None => RECT_TITLE_HEAD@ + window_id@ + RECT_TITLE_TAIL@,
        },
{
    match window_index(window_id) {
        Some((app, n)) => {
            let mut m = text::str_chars(RECT_APP_HEAD);
            text::append_str(&mut m, app.as_str());
            text::append_str(&mut m, RECT_APP_MID);
            text::append_chars(&mut m, &text::decimal_chars(n as u64));
            text::append_str(&mut m, RECT_APP_TAIL);
            text::chars_to_string(&m)
        },
        None => {
            let mut m = text::str_chars(RECT_TITLE_HEAD);
            text::append_str(&mut m, window_id);
            text::append_str(&mut m, RECT_TITLE_TAIL);
            text::chars_to_string(&m)
        },
    }
}

/// The script that carries out a screendump command.
pub fn script_for(command: &ScreendumpCommand) -> (r: String)
    ensures
        r@ == match command@ {
            ScreendumpModel::ListWindows => LIST_WINDOWS_SCRIPT@,
            ScreendumpModel::WindowDetails(id) => window_details_script_text(id),
            ScreendumpModel::FullScreen => FULL_SCREEN_SCRIPT@,
        },
{
    match command {
        ScreendumpCommand::ListWindows => build_macos_list_windows_script(),
        ScreendumpCommand::WindowDetails(id) => build_macos_window_details_script(id.as_str()),
        ScreendumpCommand::FullScreen => build_macos_full_screen_script(),
    }
}

/// The result of a screendump script that printed `ui_text`: the text under
/// a heading for the command, or an error where it printed only white
/// space.
pub fn script_dump_result(command: &ScreendumpCommand, ui_text: &str) -> (r: ToolResult)
    ensures
        text::trim(ui_text@).len() == 0 ==> is_error_with(r, "No UI hierarchy information available"@),
        text::trim(ui_text@).len() > 0 ==> r.success && crate::tools::single_text(r.content@) == Some(
            match command@ {
                ScreendumpModel::ListWindows => "Available Windows:\n"@ + ui_text@,
                ScreendumpModel::WindowDetails(id) => "Window Details for '"@ + id + "':\n"@ + ui_text@,
                ScreendumpModel::FullScreen => "Full Screen UI Hierarchy:\n"@ + ui_text@,
            },
        ),
{
    if text::trim_chars(&text::str_chars(ui_text)).len() == 0 {
        return ToolResult::error(owned("No UI hierarchy information available"));
    }
    let mut m = match command {
        ScreendumpCommand::ListWindows => text::str_chars("Available Windows:\n"),
        ScreendumpCommand::WindowDetails(id) => {
            let mut h = text::str_chars("Window Details for '");
            text::append_str(&mut h, id.as_str());
            text::append_str(&mut h, "':\n");
            h
        },
        ScreendumpCommand::FullScreen => text::str_chars("Full Screen UI Hierarchy:\n"),
    };
    text::append_str(&mut m, ui_text);
    ToolResult::success(text::chars_to_string(&m))
}

} // verus!

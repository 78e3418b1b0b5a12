use termineer::tools::screendump::applescript::{
    build_macos_app_window_script, build_macos_full_screen_script, build_macos_list_windows_script,
    build_macos_window_details_script, build_macos_window_rect_script, window_index,
};
use termineer::tools::screendump::{
    capture_linux_ui, capture_windows_ui, parse_command, parse_window_rect, ScreendumpCommand,
};

#[test]
fn test_parse_command() {
    // Test empty string
    assert!(matches!(parse_command(""), ScreendumpCommand::ListWindows));

    // Test fullscreen
    assert!(matches!(parse_command("fullscreen"), ScreendumpCommand::FullScreen));
    assert!(matches!(parse_command("full"), ScreendumpCommand::FullScreen));

    // Test list
    assert!(matches!(parse_command("list"), ScreendumpCommand::ListWindows));

    // Test window command
    match parse_command("window Terminal") {
        ScreendumpCommand::WindowDetails(id) => assert_eq!(id, "Terminal"),
        _ => panic!("Expected WindowDetails"),
    }

    // Test window with no args
    assert!(matches!(parse_command("window"), ScreendumpCommand::ListWindows));

    // Test numeric ID
    match parse_command("1234") {
        ScreendumpCommand::WindowDetails(id) => assert_eq!(id, "1234"),
        _ => panic!("Expected WindowDetails"),
    }

    // Test direct title
    match parse_command("Some Window Title") {
        ScreendumpCommand::WindowDetails(id) => assert_eq!(id, "Some Window Title"),
        _ => panic!("Expected WindowDetails"),
    }
}

#[test]
fn other_platforms_report_missing_capture() {
    let w = capture_windows_ui(ScreendumpCommand::WindowDetails("Term".to_string()));
    assert!(!w.success);
    assert_eq!(w.to_text(), "Windows UI capture (window details for 'Term') not yet implemented\n");
    let l = capture_linux_ui(ScreendumpCommand::FullScreen);
    assert_eq!(l.to_text(), "Linux UI capture (full screen) not yet implemented\n");
}

#[test]
fn window_scripts_target_app_windows_or_titles() {
    assert_eq!(window_index("Safari:2"), Some(("Safari".to_string(), 2)));
    assert_eq!(window_index("a:b:c"), None);
    assert_eq!(window_index("Terminal"), None);
    assert_eq!(window_index("App:x"), None);
    let rect = build_macos_window_rect_script("Safari:2");
    assert!(rect.contains("set targetApp to \"Safari\"\nset targetIndex to 2\n"));
    let by_title = build_macos_window_rect_script("My Doc");
    assert!(by_title.contains("set targetId to \"My Doc\"\n"));
    let app = build_macos_app_window_script("Finder", 1);
    assert!(app.contains("set targetApp = \"Finder\""));
    assert!(app.contains("set targetIndex = 1\n"));
    assert_eq!(build_macos_window_details_script("Finder:1"), app);
    assert!(build_macos_window_details_script("Notes").contains("set targetId = \"Notes\""));
    assert!(build_macos_list_windows_script().starts_with("osascript -e '"));
    assert!(build_macos_full_screen_script().ends_with("return appList\n    end tell'"));
}

#[test]
fn window_rect_reports_are_read() {
    assert_eq!(
        parse_window_rect("Safari|Doc|10|-20|800|600\n"),
        Ok(("Safari".to_string(), "Doc".to_string(), 10, -20, 800, 600))
    );
    assert_eq!(
        parse_window_rect("ERROR: Window 'x' not found\n"),
        Err("ERROR: Window 'x' not found".to_string())
    );
    assert_eq!(parse_window_rect("a|b|c"), Err("Invalid window rect format: a|b|c".to_string()));
    assert_eq!(parse_window_rect("a|b|x|1|2|3"), Err("Invalid X coordinate".to_string()));
    assert_eq!(parse_window_rect("a|b|1|2|3|h"), Err("Invalid height".to_string()));
}

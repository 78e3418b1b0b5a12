use termineer::llm::{Content, ImageSource};
use termineer::tools::ui::screenshot::{
    capture_result, parse_command, screenshot_content, unsupported_platform, ScreenshotCommand,
};

fn window(c: &ScreenshotCommand) -> Option<&str> {
    match c {
        ScreenshotCommand::Window(w) => Some(w.as_str()),
        _ => None,
    }
}

#[test]
fn screenshot_commands_from_arguments() {
    assert!(matches!(parse_command("   ", Some(2)), ScreenshotCommand::FullScreen));
    assert!(matches!(parse_command("screen 1", Some(2)), ScreenshotCommand::SingleScreen(1)));
    assert!(matches!(parse_command("Screen x", Some(2)), ScreenshotCommand::FullScreen));
    assert!(matches!(parse_command("screen", Some(2)), ScreenshotCommand::FullScreen));
    assert!(matches!(parse_command("1", Some(2)), ScreenshotCommand::SingleScreen(1)));
    assert_eq!(window(&parse_command("5", Some(2))), Some("5"));
    assert_eq!(window(&parse_command("1", None)), Some("1"));
    assert_eq!(window(&parse_command("WINDOW  My   Doc ", Some(1))), Some("My Doc"));
    assert!(matches!(parse_command("win", Some(1)), ScreenshotCommand::FullScreen));
    assert_eq!(window(&parse_command(" Safari:2 ", Some(1))), Some("Safari:2"));
}

#[test]
fn screenshots_become_captioned_images() {
    let c = screenshot_content(vec!["AAA".to_string(), "BBB".to_string()]);
    assert_eq!(c.len(), 4);
    assert!(matches!(&c[0], Content::Text { text } if text == "Screenshot: 0"));
    assert!(matches!(&c[1], Content::Image { source: ImageSource::Base64 { media_type, data } } if media_type == "image/jpeg" && data == "AAA"));
    assert!(matches!(&c[2], Content::Text { text } if text == "Screenshot: 1"));
    assert!(matches!(&c[3], Content::Image { source: ImageSource::Base64 { data, .. } } if data == "BBB"));
    let ok = capture_result(Ok(vec!["X".to_string()]));
    assert!(ok.success);
    assert_eq!(ok.content.len(), 2);
    let bad = capture_result(Err("no display".to_string()));
    assert!(!bad.success);
    assert_eq!(bad.to_text(), "Failed to capture screenshot: no display\n");
    assert_eq!(
        unsupported_platform("plan9").to_text(),
        "Screenshot tool not implemented for plan9 platform\n"
    );
}

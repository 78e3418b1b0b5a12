//! The screenshot tool: what its arguments ask for, and the content handed
//! to the agent for the images taken. Taking the pictures is the
//! application's part.
use vstd::prelude::*;
use crate::llm::{Content, ImageSource};
use crate::text::{self, decimal, join, lowercase, parse_bounded, trim, words};
use crate::tools::ToolResult;

verus! {

/// Commands supported by the screenshot tool
#[derive(Debug, Clone)]
pub enum ScreenshotCommand {
    /// Capture all displays as separate images
    FullScreen,
    /// Capture a specific screen by index
    SingleScreen(usize),
    /// Capture a specific window
    Window(String),
}

/// A screenshot command, with texts taken by their characters.
pub enum ScreenshotModel {
    FullScreen,
    SingleScreen(nat),
    Window(Seq<char>),
}

impl View for ScreenshotCommand {
    type V = ScreenshotModel;

    open spec fn view(&self) -> ScreenshotModel {
        match self {
            ScreenshotCommand::FullScreen => ScreenshotModel::FullScreen,
            ScreenshotCommand::SingleScreen(i) => ScreenshotModel::SingleScreen(*i as nat),
            ScreenshotCommand::Window(w) => ScreenshotModel::Window(w@),
        }
    }
}

/// The command that the arguments describe, where `screens` is the number
/// of screens, if it could be had: nothing takes all screens; `window` or
/// `win` followed by words names a window by those words (alone it takes
/// all screens); `screen N` takes screen `N` (without a valid `N`, all
/// screens); a first word that is a `usize` below the number of screens
/// takes that screen; anything else names a window by the whole text.
pub open spec fn screenshot_command_of(args: Seq<char>, screens: Option<usize>) -> ScreenshotModel {
    let a = trim(args);
    let parts = words(a);
    if a.len() == 0 || parts.len() == 0 {
        ScreenshotModel::FullScreen
    } else {
        let kw = lowercase(parts[0]);
        if kw == "window"@ || kw == "win"@ {
            if parts.len() > 1 {
                ScreenshotModel::Window(join(parts.skip(1), " "@))
            } else {
                ScreenshotModel::FullScreen
            }
        } else if kw == "screen"@ {
            if parts.len() > 1 && parse_bounded(parts[1], usize::MAX as int) is Some {
                ScreenshotModel::SingleScreen(parse_bounded(parts[1], usize::MAX as int).unwrap())
            } else {
                ScreenshotModel::FullScreen
            }
        } else if parse_bounded(kw, usize::MAX as int) is Some {
            if screens matches Some(n) && parse_bounded(kw, usize::MAX as int).unwrap() < n {
                ScreenshotModel::SingleScreen(parse_bounded(kw, usize::MAX as int).unwrap())
            } else {
                ScreenshotModel::Window(a)
            }
        } else {
            ScreenshotModel::Window(a)
        }
    }
}

/// Parse the command arguments, given the number of screens where it could
/// be had.
pub fn parse_command(args: &str, screens: Option<usize>) -> (r: ScreenshotCommand)
    ensures
        r@ == screenshot_command_of(args@, screens),
{
    let a = text::trim_chars(&text::str_chars(args));
    if a.len() == 0 {
        return ScreenshotCommand::FullScreen;
    }
    let parts = text::split_whitespace(&a);
    if parts.len() == 0 {
        return ScreenshotCommand::FullScreen;
    }
    let kw = text::to_lowercase(&parts[0]);
    if text::chars_eq_str(&kw, "window") || text::chars_eq_str(&kw, "win") {
        if parts.len() > 1 {
            ScreenshotCommand::Window(text::chars_to_string(&text::join_from(&parts, 1, " ")))
        } else {
            ScreenshotCommand::FullScreen
        }
    } else if text::chars_eq_str(&kw, "screen") {
        if parts.len() > 1 {
            match text::parse_usize(&parts[1]) {
                Some(i) => ScreenshotCommand::SingleScreen(i),
                None => ScreenshotCommand::FullScreen,
            }
        } else {
            ScreenshotCommand::FullScreen
        }
    } else {
        match text::parse_usize(&kw) {
            Some(i) => match screens {
                Some(n) => if i < n {
                    ScreenshotCommand::SingleScreen(i)
                } else {
                    ScreenshotCommand::Window(text::chars_to_string(&a))
                },
                None => ScreenshotCommand::Window(text::chars_to_string(&a)),
            },
            None => ScreenshotCommand::Window(text::chars_to_string(&a)),
        }
    }
}

/// The content for image `k` of `images` stands at `2k` (its caption) and
/// `2k + 1` (the image) of `c`.
pub open spec fn shot_at(c: Seq<Content>, images: Seq<String>, k: int) -> bool {
    &&& c[2 * k] matches Content::Text { text } && text@ == "Screenshot: "@ + decimal(k as nat)
    &&& c[2 * k + 1] matches Content::Image { source: ImageSource::Base64 { media_type, data } }
        && media_type@ == "image/jpeg"@ && data == images[k]
}

/// The content for the images `images` (base64-encoded JPEG): for each, a
/// caption with its number, then the image.
pub fn screenshot_content(images: Vec<String>) -> (r: Vec<Content>)
    ensures
        r@.len() == 2 * images@.len(),
        forall|k: int| 0 <= k < images@.len() ==> #[trigger] shot_at(r@, images@, k),
{
    let mut out: Vec<Content> = Vec::new();
    let mut i: usize = 0;
    while i < images.len()
        invariant
            i <= images.len(),
            out@.len() == 2 * i,
            forall|k: int| 0 <= k < i ==> #[trigger] shot_at(out@, images@, k),
        decreases images.len() - i,
    {
        let ghost before = out@;
        let mut caption = text::str_chars("Screenshot: ");
        text::append_chars(&mut caption, &text::decimal_chars(i as u64));
        out.push(Content::Text { text: text::chars_to_string(&caption) });
        out.push(
            Content::Image {
                source: ImageSource::Base64 {
                    media_type: text::chars_to_string(&text::str_chars("image/jpeg")),
                    data: images[i].clone(),
                },
            },
        );
        assert forall|k: int| 0 <= k < i + 1 implies #[trigger] shot_at(out@, images@, k) by {
            if k < i {
                assert(shot_at(before, images@, k));
                assert(out@[2 * k] == before[2 * k]);
                assert(out@[2 * k + 1] == before[2 * k + 1]);
            }
        }
        i = i + 1;
    }
    out
}

/// The result of a capture: the content of the images, or the failure.
pub fn capture_result(images: Result<Vec<String>, String>) -> (r: ToolResult)
    ensures
        match images {
            Ok(v) => r.success && r.content@.len() == 2 * v@.len() && forall|k: int|
                0 <= k < v@.len() ==> #[trigger] shot_at(r.content@, v@, k),
            Err(e) => crate::tools::is_error_with(r, "Failed to capture screenshot: "@ + e@),
        },
{
    match images {
        Ok(v) => ToolResult::success_with_content(screenshot_content(v)),
        Err(e) => {
            let mut m = text::str_chars("Failed to capture screenshot: ");
            text::append_str(&mut m, e.as_str());
            ToolResult::error(text::chars_to_string(&m))
        },
    }
}

/// The refusal on a platform without screenshots.
pub fn unsupported_platform(platform: &str) -> (r: ToolResult)
    ensures
        crate::tools::is_error_with(r, "Screenshot tool not implemented for "@ + platform@ + " platform"@),
{
    let mut m = text::str_chars("Screenshot tool not implemented for ");
    text::append_str(&mut m, platform);
    text::append_str(&mut m, " platform");
    ToolResult::error(text::chars_to_string(&m))
}

} // verus!

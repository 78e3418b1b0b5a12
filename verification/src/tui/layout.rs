//! Where the parts of the terminal interface go and what their titles say:
//! the arithmetic of drawing, apart from the drawing itself.
use vstd::prelude::*;
use crate::text::{self, decimal, utf8_len};
use crate::tui::popup::commands::CommandSuggestion;

verus! {

/// A rectangle of terminal cells.
#[derive(Debug, Clone, Copy, PartialEq, Eq, Structural)]
pub struct Area {
    pub x: u16,
    pub y: u16,
    pub width: u16,
    pub height: u16,
}

/// `a - b`, or zero where `b` is larger.
pub open spec fn sat_sub(a: int, b: int) -> int {
    if a > b {
        a - b
    } else {
        0
    }
}

/// The height of the input box: three rows while a temporary output shows,
/// else the rows its text needs and two for the borders.
pub fn input_box_height(temp_output_visible: bool, text_rows: u16) -> (r: u16)
    requires
        temp_output_visible || text_rows + 2 <= u16::MAX,
    ensures
        r == if temp_output_visible {
            3
        } else {
            text_rows + 2
        },
{
    if temp_output_visible {
        3
    } else {
        text_rows + 2
    }
}

/// The label of an agent in the header: its state mark, its name and its
/// number.
pub fn agent_tab(indicator: &str, name: &str, id: u64) -> (r: String)
    ensures
        r@ == " "@ + indicator@ + " "@ + name@ + " ["@ + decimal(id as nat) + "] "@,
{
    let mut m = text::str_chars(" ");
    text::append_str(&mut m, indicator);
    text::append_str(&mut m, " ");
    text::append_str(&mut m, name);
    text::append_str(&mut m, " [");
    text::append_chars(&mut m, &text::decimal_chars(id));
    text::append_str(&mut m, "] ");
    text::chars_to_string(&m)
}

/// The lines of the conversation shown: from the scroll position, or the
/// last lines that fill the view when scrolled to the bottom; the range
/// `[start, end)`.
pub open spec fn visible_range(total: int, offset: int, max_offset: int, height: int) -> (int, int) {
    let visible = sat_sub(height, 2);
    let start = if offset < total {
        offset
    } else {
        0
    };
    let adjusted = if offset == max_offset && total > visible {
        total - visible
    } else {
        start
    };
    let end = if adjusted + visible < total {
        adjusted + visible
    } else {
        total
    };
    if total > 0 && adjusted < total {
        (adjusted, end)
    } else {
        (0, 0)
    }
}

/// The range of conversation lines that a view `area_height` rows high
/// shows, borders taken off.
pub fn visible_lines(total: usize, scroll_offset: usize, max_scroll_offset: usize, area_height: u16) -> (r: (
    usize,
    usize,
))
    ensures
        r.0 as int == visible_range(total as int, scroll_offset as int, max_scroll_offset as int, area_height as int).0,
        r.1 as int == visible_range(total as int, scroll_offset as int, max_scroll_offset as int, area_height as int).1,
        r.0 <= r.1 <= total,
{
    let visible: usize = if area_height > 2 {
        (area_height - 2) as usize
    } else {
        0
    };
    if total == 0 {
        return (0, 0);
    }
    let start = if scroll_offset < total {
        scroll_offset
    } else {
        0
    };
    let adjusted = if scroll_offset == max_scroll_offset && total > visible {
        total - visible
    } else {
        start
    };
    if adjusted >= total {
        return (0, 0);
    }
    let end = if visible < total - adjusted {
        adjusted + visible
    } else {
        total
    };
    (adjusted, end)
}

/// The title of the conversation view: the number of lines and, where they
/// do not all fit, the scroll position.
pub open spec fn conversation_title_text(total: nat, offset: nat, max_offset: nat, visible: nat) -> Seq<
    char,
> {
    "Conversation ("@ + decimal(total) + " lines"@ + (if total > visible {
        " | Scroll: "@ + decimal(offset) + "/"@ + decimal(max_offset) + if offset == max_offset {
            " (Most Recent \u{2193})"@
        } else {
            Seq::<char>::empty()
        }
    } else {
        Seq::<char>::empty()
    }) + ")"@
}

/// The title of the conversation view of `area_height` rows.
pub fn conversation_title(total: usize, scroll_offset: usize, max_scroll_offset: usize, area_height: u16) -> (r:
    String)
    ensures
        r@ == conversation_title_text(
            total as nat,
            scroll_offset as nat,
            max_scroll_offset as nat,
            sat_sub(area_height as int, 2) as nat,
        ),
{
    let visible: usize = if area_height > 2 {
        (area_height - 2) as usize
    } else {
        0
    };
    let mut m = text::str_chars("Conversation (");
    text::append_chars(&mut m, &text::decimal_chars(total as u64));
    text::append_str(&mut m, " lines");
    if total > visible {
        text::append_str(&mut m, " | Scroll: ");
        text::append_chars(&mut m, &text::decimal_chars(scroll_offset as u64));
        text::append_str(&mut m, "/");
        text::append_chars(&mut m, &text::decimal_chars(max_scroll_offset as u64));
        if scroll_offset == max_scroll_offset {
            text::append_str(&mut m, " (Most Recent \u{2193})");
        }
    }
    text::append_str(&mut m, ")");
    text::chars_to_string(&m)
}

/// The title of the input box: the selected agent's name, number and state.
pub fn input_title(agent_name: &str, agent_id: u64, state_text: &str) -> (r: String)
    ensures
        r@ == "Input ["@ + agent_name@ + " ["@ + decimal(agent_id as nat) + "] | "@ + state_text@
            + "]"@,
{
    let mut m = text::str_chars("Input [");
    text::append_str(&mut m, agent_name);
    text::append_str(&mut m, " [");
    text::append_chars(&mut m, &text::decimal_chars(agent_id));
    text::append_str(&mut m, "] | ");
    text::append_str(&mut m, state_text);
    text::append_str(&mut m, "]");
    text::chars_to_string(&m)
}

/// The cell of the cursor in the input box `area`: the text wraps at the
/// box's inner width, one cell in from the border.
pub fn cursor_cell(area: Area, cursor: usize) -> (r: (u16, u16))
    requires
        area.width > 2,
        (cursor as int) / ((area.width - 2) as int) + 1 <= u16::MAX,
        area.x + (cursor as int) % ((area.width - 2) as int) + 1 <= u16::MAX,
        area.y + (cursor as int) / ((area.width - 2) as int) + 1 <= u16::MAX,
    ensures
        r.0 == area.x + (cursor as int) % ((area.width - 2) as int) + 1,
        r.1 == area.y + (cursor as int) / ((area.width - 2) as int) + 1,
{
    let w = (area.width - 2) as usize;
    let col = (cursor % w) as u16 + 1;
    let row = (cursor / w) as u16 + 1;
    (area.x + col, area.y + row)
}

/// How far the temporary output grows up from the input box: the lines it
/// needs beyond the first, but no further than leaves five lines of the
/// conversation in view.
pub open spec fn extension(content_height: int, needed_lines: int) -> int {
    let max_ext = sat_sub(content_height, 5);
    let want = sat_sub(needed_lines, 1);
    if want < max_ext {
        want
    } else {
        max_ext
    }
}

/// The area of the temporary output: the input box, grown upward by the
/// extension.
pub fn temp_output_area(input: Area, content_height: u16, needed_lines: usize) -> (r: Area)
    requires
        input.height + extension(content_height as int, needed_lines as int) <= u16::MAX,
    ensures
        r.x == input.x,
        r.width == input.width,
        r.y == sat_sub(input.y as int, extension(content_height as int, needed_lines as int)),
        r.height == input.height + extension(content_height as int, needed_lines as int),
{
    let max_ext: usize = if content_height > 5 {
        (content_height - 5) as usize
    } else {
        0
    };
    let want: usize = if needed_lines > 1 {
        needed_lines - 1
    } else {
        0
    };
    let ext: usize = if want < max_ext {
        want
    } else {
        max_ext
    };
    let e = ext as u16;
    let mut out = input;
    if ext > 0 {
        out.y = if input.y > e {
            input.y - e
        } else {
            0
        };
        out.height = input.height + e;
    }
    out
}

/// The title of the temporary output.
pub fn temp_output_title(title: &str) -> (r: String)
    ensures
        r@ == title@ + " (Press ESC or Enter to dismiss)"@,
{
    let mut m = text::str_chars(title);
    text::append_str(&mut m, " (Press ESC or Enter to dismiss)");
    text::chars_to_string(&m)
}

/// The byte length of a text as a `u16` would hold it (`as u16`).
pub open spec fn width_u16(s: Seq<char>) -> int {
    (utf8_len(s) % 0x10000) as int
}

/// The largest of the widths that `f` gives of `cs`, or `default` where
/// there are none.
pub open spec fn max_width(cs: Seq<CommandSuggestion>, names: bool, default: int) -> int
    decreases cs.len(),
{
    if cs.len() == 0 {
        default
    } else {
        let w = width_u16(if names {
            cs.last().name@
        } else {
            cs.last().description@
        });
        if cs.len() == 1 {
            w
        } else {
            let m = max_width(cs.drop_last(), names, default);
            if m < w {
                w
            } else {
                m
            }
        }
    }
}

/// The width of a text as a `u16` would hold it.
fn text_width(s: &String) -> (r: u16)
    ensures
        r == width_u16(s@),
{
    let cs = text::str_chars(s.as_str());
    let mut n: u16 = 0;
    let mut i: usize = 0;
    while i < cs.len()
        invariant
            i <= cs.len(),
            n as int == (utf8_len(cs@.take(i as int)) % 0x10000) as int,
        decreases cs.len() - i,
    {
        proof {
            text::lemma_utf8_len_take(cs@, i as int);
        }
        let b = text::char_len_utf8(cs[i]) as u16;
        n = if n as u32 + b as u32 >= 0x10000 {
            (n as u32 + b as u32 - 0x10000) as u16
        } else {
            n + b
        };
        i = i + 1;
    }
    assert(cs@.take(cs.len() as int) =~= cs@);
    n
}

/// The largest name or description width of the suggestions `cs`.
fn widest(cs: &Vec<CommandSuggestion>, names: bool, default: u16) -> (r: u16)
    ensures
        r as int == max_width(cs@, names, default as int),
{
    let mut best: u16 = default;
    let mut i: usize = 0;
    assert(cs@.take(0) =~= Seq::<CommandSuggestion>::empty());
    while i < cs.len()
        invariant
            i <= cs.len(),
            best as int == max_width(cs@.take(i as int), names, default as int),
        decreases cs.len() - i,
    {
        assert(cs@.take(i as int + 1).drop_last() =~= cs@.take(i as int));
        assert(cs@.take(i as int + 1).last() == cs@[i as int]);
        let w = if names {
            text_width(&cs[i].name)
        } else {
            text_width(&cs[i].description)
        };
        if i == 0 || best < w {
            best = w;
        }
        i = i + 1;
    }
    assert(cs@.take(cs.len() as int) =~= cs@);
    best
}

/// The area of the command suggestions popup on a screen of `screen_width`
/// by `screen_height`: at the left edge, just above the input box, one row
/// for each suggestion up to eight and two for the borders, wide enough for
/// the widest name and description but within the screen and at least
/// thirty cells.
pub open spec fn popup_area_of(cs: Seq<CommandSuggestion>, screen_width: int, screen_height: int) -> Area {
    let n = cs.len();
    let height: int = (if n < 8 {
        n as int
    } else {
        8
    }) + 2;
    let want = max_width(cs, true, 10) + max_width(cs, false, 30) + 10;
    let limit = sat_sub(screen_width, 4);
    let w0 = if want < limit {
        want
    } else {
        limit
    };
    let width = if w0 < 30 {
        30
    } else {
        w0
    };
    Area {
        x: 0,
        y: sat_sub(sat_sub(screen_height, 3), height) as u16,
        width: width as u16,
        height: height as u16,
    }
}

/// The area of the command suggestions popup.
pub fn suggestions_popup_area(cs: &Vec<CommandSuggestion>, screen_width: u16, screen_height: u16) -> (r: Area)
    requires
        max_width(cs@, true, 10) + max_width(cs@, false, 30) + 10 <= u16::MAX,
    ensures
        r == popup_area_of(cs@, screen_width as int, screen_height as int),
{
    let n = cs.len();
    let height: u16 = (if n < 8 {
        n
    } else {
        8
    }) as u16 + 2;
    let want = widest(cs, true, 10) + widest(cs, false, 30) + 10;
    let limit: u16 = if screen_width > 4 {
        screen_width - 4
    } else {
        0
    };
    let w0 = if want < limit {
        want
    } else {
        limit
    };
    let width = if w0 < 30 {
        30
    } else {
        w0
    };
    let input_y: u16 = if screen_height > 3 {
        screen_height - 3
    } else {
        0
    };
    let y = if input_y > height {
        input_y - height
    } else {
        0
    };
    Area { x: 0, y, width, height }
}

} // verus!

use termineer::tui::layout::{
    agent_tab, conversation_title, cursor_cell, input_box_height, input_title,
    suggestions_popup_area, temp_output_area, temp_output_title, visible_lines, Area,
};
use termineer::tui::popup::commands::CommandSuggestion;

#[test]
fn input_box_and_labels() {
    assert_eq!(input_box_height(true, 9), 3);
    assert_eq!(input_box_height(false, 4), 6);
    assert_eq!(agent_tab("\u{25CF}", "main", 1), " \u{25CF} main [1] ");
    assert_eq!(input_title("main", 3, "Idle"), "Input [main [3] | Idle]");
    assert_eq!(temp_output_title("Help"), "Help (Press ESC or Enter to dismiss)");
}

#[test]
fn conversation_view_range_and_title() {
    assert_eq!(visible_lines(0, 0, 0, 10), (0, 0));
    assert_eq!(visible_lines(100, 0, 0, 12), (90, 100));
    assert_eq!(visible_lines(100, 5, 90, 12), (5, 15));
    assert_eq!(visible_lines(5, 0, 0, 12), (0, 5));
    assert_eq!(visible_lines(10, 20, 30, 12), (0, 10));
    assert_eq!(conversation_title(100, 5, 90, 12), "Conversation (100 lines | Scroll: 5/90)");
    assert_eq!(
        conversation_title(100, 90, 90, 12),
        "Conversation (100 lines | Scroll: 90/90 (Most Recent \u{2193}))"
    );
    assert_eq!(conversation_title(5, 0, 0, 12), "Conversation (5 lines)");
}

#[test]
fn cursor_and_overlay_geometry() {
    let input = Area { x: 0, y: 20, width: 12, height: 3 };
    assert_eq!(cursor_cell(input, 25), (6, 23));
    assert_eq!(cursor_cell(input, 0), (1, 21));
    let base = Area { x: 0, y: 30, width: 80, height: 3 };
    assert_eq!(temp_output_area(base, 20, 4), Area { x: 0, y: 27, width: 80, height: 6 });
    assert_eq!(temp_output_area(base, 20, 1), base);
    assert_eq!(temp_output_area(base, 20, 100), Area { x: 0, y: 15, width: 80, height: 18 });
    assert_eq!(temp_output_area(base, 4, 100), base);
}

#[test]
fn suggestion_popup_geometry() {
    let cs = vec![
        CommandSuggestion::make("/help", "Show help"),
        CommandSuggestion::make("/quit", "Exit the app"),
    ];
    assert_eq!(suggestions_popup_area(&cs, 100, 40), Area { x: 0, y: 33, width: 30, height: 4 });
    let wide = vec![CommandSuggestion::make(
        "/averyveryverylongcommandname",
        "a description that takes forty bytes....",
    )];
    assert_eq!(suggestions_popup_area(&wide, 60, 40), Area { x: 0, y: 34, width: 56, height: 3 });
    assert_eq!(suggestions_popup_area(&wide, 200, 40).width, 79);
}

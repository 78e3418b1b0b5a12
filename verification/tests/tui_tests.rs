use termineer::agent::{AgentId, AgentState};
use termineer::tui::commands::{handle_pound_command, process_command, CommandEffect};
use termineer::tui::events::{
    handle_ctrl_c_interrupt, handle_key_event, handle_mouse_event, KeyCode, KeyEvent,
    KeyModifiers, KeyOutcome, MouseEventKind,
};
use termineer::tui::popup::commands::CommandSuggestionsPopup;
use termineer::tui::state::TuiState;

fn plain() -> KeyModifiers {
    KeyModifiers { shift: false, control: false, alt: false, meta: false }
}

fn key(code: KeyCode) -> KeyEvent {
    KeyEvent { code, modifiers: plain() }
}

fn typed(s: &mut TuiState, text: &str) {
    for c in text.chars() {
        handle_key_event(s, key(KeyCode::Char(c)));
    }
}

#[test]
fn typing_and_editing() {
    let mut s = TuiState::new(AgentId(1));
    typed(&mut s, "helo");
    assert_eq!(s.input, "helo");
    assert_eq!(s.cursor_position, 4);
    handle_key_event(&mut s, key(KeyCode::Left));
    typed(&mut s, "l");
    assert_eq!(s.input, "hello");
    handle_key_event(&mut s, key(KeyCode::Home));
    handle_key_event(&mut s, key(KeyCode::Delete));
    assert_eq!(s.input, "ello");
    handle_key_event(&mut s, key(KeyCode::End));
    handle_key_event(&mut s, key(KeyCode::Backspace));
    assert_eq!(s.input, "ell");
    assert_eq!(s.cursor_position, 3);
}

#[test]
fn word_movement() {
    let mut s = TuiState::new(AgentId(1));
    typed(&mut s, "one two  three");
    let alt = KeyModifiers { shift: false, control: false, alt: true, meta: false };
    handle_key_event(&mut s, KeyEvent { code: KeyCode::Left, modifiers: alt });
    assert_eq!(s.cursor_position, 9);
    handle_key_event(&mut s, KeyEvent { code: KeyCode::Char('b'), modifiers: alt });
    assert_eq!(s.cursor_position, 4);
    handle_key_event(&mut s, KeyEvent { code: KeyCode::Char('f'), modifiers: alt });
    assert_eq!(s.cursor_position, 9);
    let meta = KeyModifiers { shift: false, control: false, alt: false, meta: true };
    handle_key_event(&mut s, KeyEvent { code: KeyCode::Left, modifiers: meta });
    assert_eq!(s.cursor_position, 0);
    assert_eq!(s.input, "one two  three");
}

#[test]
fn submit_plain_input_and_history() {
    let mut s = TuiState::new(AgentId(1));
    typed(&mut s, "hi");
    match handle_key_event(&mut s, key(KeyCode::Enter)) {
        KeyOutcome::Send(t) => assert_eq!(t, "hi"),
        _ => panic!("expected the input to be sent"),
    }
    assert_eq!(s.input, "");
    assert_eq!(s.command_history, vec!["hi".to_string()]);
    typed(&mut s, "hi");
    handle_key_event(&mut s, key(KeyCode::Enter));
    assert_eq!(s.command_history.len(), 1);
    typed(&mut s, "draft");
    handle_key_event(&mut s, key(KeyCode::Up));
    assert_eq!(s.input, "hi");
    assert_eq!(s.history_index, 0);
    handle_key_event(&mut s, key(KeyCode::Down));
    assert_eq!(s.input, "draft");
    assert_eq!(s.history_index, -1);
    assert_eq!(s.cursor_position, 5);
}

#[test]
fn history_keeps_last_hundred() {
    let mut s = TuiState::new(AgentId(1));
    for i in 0..105 {
        typed(&mut s, &format!("m{}", i));
        handle_key_event(&mut s, key(KeyCode::Enter));
    }
    assert_eq!(s.command_history.len(), 100);
    assert_eq!(s.command_history[0], "m5");
}

#[test]
fn slash_commands_and_suggestions() {
    let mut s = TuiState::new(AgentId(1));
    typed(&mut s, "/");
    assert!(s.command_mode);
    assert!(s.command_suggestions.visible);
    assert_eq!(s.command_suggestions.filtered_commands.len(), 9);
    typed(&mut s, "mo");
    assert_eq!(s.command_suggestions.filtered_commands.len(), 1);
    handle_key_event(&mut s, key(KeyCode::Tab));
    assert_eq!(s.input, "/model ");
    assert!(!s.command_suggestions.visible);
    typed(&mut s, "gpt");
    match handle_key_event(&mut s, key(KeyCode::Enter)) {
        KeyOutcome::Command(CommandEffect::Send(_)) => {}
        _ => panic!("expected a command for the agent"),
    }
    assert!(!s.command_mode);
    assert_eq!(s.input, "");
}

#[test]
fn escape_and_enter_dismiss() {
    let mut s = TuiState::new(AgentId(1));
    typed(&mut s, "/help");
    handle_key_event(&mut s, key(KeyCode::Enter));
    assert!(s.temp_output.visible);
    assert_eq!(s.temp_output.title, "Help");
    handle_key_event(&mut s, key(KeyCode::Esc));
    assert!(!s.temp_output.visible);
    typed(&mut s, "abc");
    handle_key_event(&mut s, key(KeyCode::Esc));
    assert_eq!(s.input, "");
}

#[test]
fn ctrl_c_is_handed_on_and_double_press_quits() {
    let mut s = TuiState::new(AgentId(1));
    let ctrl = KeyModifiers { shift: false, control: true, alt: false, meta: false };
    assert!(matches!(
        handle_key_event(&mut s, KeyEvent { code: KeyCode::Char('c'), modifiers: ctrl }),
        KeyOutcome::CtrlC
    ));
    assert!(handle_ctrl_c_interrupt(&mut s, 1000, Some(AgentState::Processing)));
    assert!(!s.should_quit);
    assert!(!handle_ctrl_c_interrupt(&mut s, 1500, Some(AgentState::Idle)));
    assert!(s.temp_output.visible);
    assert_eq!(s.temp_output.title, "Interrupt");
    assert!(!handle_ctrl_c_interrupt(&mut s, 4000, None));
    assert!(s.should_quit);
    assert_eq!(s.temp_output.title, "Exiting Application");
}

#[test]
fn ctrl_c_after_window_restarts_timer() {
    let mut s = TuiState::new(AgentId(1));
    handle_ctrl_c_interrupt(&mut s, 0, None);
    handle_ctrl_c_interrupt(&mut s, 3000, None);
    assert!(!s.should_quit);
    assert_eq!(s.last_interrupt_time, Some(3000));
}

#[test]
fn scrolling() {
    let mut s = TuiState::new(AgentId(1));
    s.visible_height = 10;
    s.update_scroll(50);
    assert_eq!(s.max_scroll_offset, 40);
    assert_eq!(s.scroll_offset, 40);
    handle_mouse_event(&mut s, MouseEventKind::ScrollUp);
    assert_eq!(s.scroll_offset, 37);
    handle_key_event(&mut s, key(KeyCode::PageUp));
    assert_eq!(s.scroll_offset, 32);
    handle_key_event(&mut s, key(KeyCode::PageDown));
    assert_eq!(s.scroll_offset, 37);
    handle_mouse_event(&mut s, MouseEventKind::ScrollDown);
    assert_eq!(s.scroll_offset, 40);
    let shift = KeyModifiers { shift: true, control: false, alt: false, meta: false };
    handle_key_event(&mut s, KeyEvent { code: KeyCode::Home, modifiers: shift });
    assert_eq!(s.scroll_offset, 0);
    handle_key_event(&mut s, KeyEvent { code: KeyCode::End, modifiers: shift });
    assert_eq!(s.scroll_offset, 40);
}

#[test]
fn pound_command_selects_agents() {
    let mut s = TuiState::new(AgentId(1));
    let agents = vec![(AgentId(1), "main".to_string()), (AgentId(2), "helper".to_string())];
    let readable = vec![AgentId(1), AgentId(2)];
    assert_eq!(handle_pound_command(&mut s, "#2", &agents, &readable), Some(AgentId(2)));
    assert_eq!(s.selected_agent_id, AgentId(2));
    assert_eq!(s.temp_output.title, "Agent Selection: #2");
    assert_eq!(s.temp_output.content, vec!["Switched to agent helper [2]".to_string()]);
    assert_eq!(handle_pound_command(&mut s, "# main", &agents, &vec![]), Some(AgentId(1)));
    assert_eq!(s.temp_output.content, vec!["Failed to get buffer for agent main".to_string()]);
    assert_eq!(handle_pound_command(&mut s, "#9", &agents, &readable), None);
    assert_eq!(s.temp_output.content, vec!["Agent with ID 9 not found".to_string()]);
    assert_eq!(handle_pound_command(&mut s, "#ghost", &agents, &readable), None);
    assert_eq!(s.temp_output.content, vec!["Agent 'ghost' not found".to_string()]);
    assert_eq!(s.selected_agent_id, AgentId(1));
}

#[test]
fn pound_input_is_handed_on() {
    let mut s = TuiState::new(AgentId(1));
    typed(&mut s, "#2");
    assert!(s.pound_command_mode);
    match handle_key_event(&mut s, key(KeyCode::Enter)) {
        KeyOutcome::Pound(t) => assert_eq!(t, "#2"),
        _ => panic!("expected a pound command"),
    }
    assert!(!s.pound_command_mode);
}

#[test]
fn tools_command_reads_case_insensitively() {
    let mut s = TuiState::new(AgentId(1));
    match process_command(&mut s, "/tools ON") {
        CommandEffect::Send(termineer::agent::AgentCommand::EnableTools(b)) => assert!(b),
        _ => panic!("expected tools on"),
    }
    match process_command(&mut s, "/frobnicate now") {
        CommandEffect::Report(m) => assert_eq!(m, "Unknown command: '/frobnicate now'. Type /help for available commands."),
        _ => panic!("expected a report"),
    }
}

#[test]
fn history_up_then_down_restores_the_draft() {
    let mut s = TuiState::new(AgentId(1));
    typed(&mut s, "ls -la");
    handle_key_event(&mut s, key(KeyCode::Enter));
    typed(&mut s, "draft");
    handle_key_event(&mut s, key(KeyCode::Up));
    assert_eq!(s.input, "ls -la");
    handle_key_event(&mut s, key(KeyCode::Down));
    assert_eq!(s.input, "draft");
    assert_eq!(s.cursor_position, 5);
    assert_eq!(s.history_index, -1);
}

#[test]
fn scrolling_back_returns_to_the_same_place() {
    let mut s = TuiState::new(AgentId(1));
    s.max_scroll_offset = 50;
    s.scroll_offset = 10;
    s.scroll(7);
    assert_eq!(s.scroll_offset, 17);
    s.scroll(-7);
    assert_eq!(s.scroll_offset, 10);
    s.scroll(100);
    assert_eq!(s.scroll_offset, 50);
    s.scroll(-100);
    assert_eq!(s.scroll_offset, 0);
}

#[test]
fn stepping_through_all_suggestions_comes_back() {
    let mut p = CommandSuggestionsPopup::new();
    p.show("/");
    let n = p.filtered_commands.len();
    assert_eq!(n, 9);
    p.next();
    p.next();
    let start = p.selected_index;
    for _ in 0..n {
        p.next();
    }
    assert_eq!(p.selected_index, start);
}

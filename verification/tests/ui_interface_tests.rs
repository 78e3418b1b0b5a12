use termineer::agent::{AgentId, AgentState};
use termineer::tui::events::{KeyCode, KeyEvent, KeyModifiers};
use termineer::ui_interface::{
    handle_ctrl_c_interrupt, handle_key_event, handle_pound_command, CommandSuggestionsPopup,
    InterfaceOutcome, TemporaryOutput, TuiState,
};

fn key(code: KeyCode) -> KeyEvent {
    KeyEvent { code, modifiers: KeyModifiers { shift: false, control: false, alt: false, meta: false } }
}

#[test]
fn interface_popup_offers_eight_commands() {
    let p = CommandSuggestionsPopup::new();
    assert_eq!(p.all_commands.len(), 8);
    assert!(p.all_commands.iter().all(|c| c.name != "/thinking"));
    let t = TemporaryOutput::new();
    assert_eq!(t.max_lines, 20);
    assert!(!t.visible);
}

#[test]
fn interface_hands_slash_commands_to_the_agent() {
    let mut s = TuiState::new(AgentId(1));
    for c in "/reset".chars() {
        handle_key_event(&mut s, key(KeyCode::Char(c)));
    }
    match handle_key_event(&mut s, key(KeyCode::Enter)) {
        InterfaceOutcome::Command(t, line) => {
            assert_eq!(t, "/reset");
            assert_eq!(line, "Command: /reset");
        }
        _ => panic!("expected the command to be handed on"),
    }
    assert!(!s.temp_output.visible);
    assert_eq!(s.command_history, vec!["/reset".to_string()]);
}

#[test]
fn interface_ctrl_c_without_popups() {
    let mut s = TuiState::new(AgentId(1));
    assert!(!handle_ctrl_c_interrupt(&mut s, 10, Some(AgentState::Idle)));
    assert!(!s.temp_output.visible);
    assert!(!handle_ctrl_c_interrupt(&mut s, 20, None));
    assert!(s.should_quit);
}

#[test]
fn interface_pound_selects_without_popup() {
    let mut s = TuiState::new(AgentId(1));
    let agents = vec![(AgentId(1), "a".to_string()), (AgentId(5), "b".to_string())];
    assert_eq!(handle_pound_command(&mut s, "#b", &agents, &vec![]), Some(AgentId(5)));
    assert_eq!(s.selected_agent_id, AgentId(5));
    assert!(!s.temp_output.visible);
}

use termineer::tools::input::{parse_action_sequence, parse_command, InputAction, InputCommand, MouseButton};

#[test]
fn mod_test_parse_command() {
    // Test click command
    match parse_command("click 100 200 Terminal", "") {
        InputCommand::Click { x, y, window_id, button, double } => {
            assert_eq!(x, 100);
            assert_eq!(y, 200);
            assert_eq!(window_id, "Terminal");
            assert_eq!(button, MouseButton::Left);
            assert_eq!(double, false);
        }
        _ => panic!("Expected Click command"),
    }

    // Test click with options
    match parse_command("click 100 200 Terminal --right --double", "") {
        InputCommand::Click { x, y, window_id, button, double } => {
            assert_eq!(x, 100);
            assert_eq!(y, 200);
            assert_eq!(window_id, "Terminal");
            assert_eq!(button, MouseButton::Right);
            assert_eq!(double, true);
        }
        _ => panic!("Expected Click command with options"),
    }

    // Test type command
    match parse_command("type Terminal", "Hello, world!") {
        InputCommand::Type { text, window_id } => {
            assert_eq!(text, "Hello, world!");
            assert_eq!(window_id, "Terminal");
        }
        _ => panic!("Expected Type command"),
    }

    // Test key command
    match parse_command("key cmd+shift+a Terminal", "") {
        InputCommand::KeyPress { key, modifiers, window_id } => {
            assert_eq!(key, "a");
            assert_eq!(modifiers, vec!["cmd", "shift"]);
            assert_eq!(window_id, "Terminal");
        }
        _ => panic!("Expected KeyPress command"),
    }
}

#[test]
fn test_parse_action_sequence() {
    // Test JSON format
    let json = r#"[
            {"type": "click", "x": 100, "y": 200, "button": "left", "double": false},
            {"type": "type", "text": "Hello, world!"},
            {"type": "key", "key": "a", "modifiers": ["cmd", "shift"]},
            {"type": "wait", "ms": 500}
        ]"#;

    let actions = parse_action_sequence(json);
    assert_eq!(actions.len(), 4);

    // Test text format
    let text = r#"
            click 100 200 --right
            type Hello, world!
            key cmd+shift+a
            wait 500
        "#;

    let actions = parse_action_sequence(text);
    assert_eq!(actions.len(), 4);
}

#[test]
fn json_sequence_fields() {
    let json = r#"[{"type": "click", "x": -5, "y": 7, "button": "middle", "double": true},
        {"type": "key", "key": "q", "modifiers": ["ctrl", 3, "alt"]},
        {"type": "wait"}, {"type": "scroll"}, {"x": 1}]"#;
    let actions = parse_action_sequence(json);
    assert_eq!(actions.len(), 3);
    match &actions[0] {
        InputAction::Click { x, y, button, double } => {
            assert_eq!((*x, *y, *button, *double), (-5, 7, MouseButton::Middle, true));
        }
        _ => panic!("Expected click"),
    }
    match &actions[1] {
        InputAction::KeyPress { key, modifiers } => {
            assert_eq!(key, "q");
            assert_eq!(modifiers, &vec!["ctrl".to_string(), "alt".to_string()]);
        }
        _ => panic!("Expected key"),
    }
    match &actions[2] {
        InputAction::Wait { ms } => assert_eq!(*ms, 100),
        _ => panic!("Expected wait"),
    }
}

#[test]
fn malformed_json_gives_no_actions() {
    assert_eq!(parse_action_sequence("[ not json").len(), 0);
}

#[test]
fn text_sequence_fields() {
    let actions = parse_action_sequence("CLICK 1 x --double\nclick 5\nkey\nwait abc\ntype\nnoise here");
    assert_eq!(actions.len(), 3);
    match &actions[0] {
        InputAction::Click { x, y, button, double } => {
            assert_eq!((*x, *y, *button, *double), (1, 0, MouseButton::Left, true));
        }
        _ => panic!("Expected click"),
    }
    match &actions[1] {
        InputAction::Wait { ms } => assert_eq!(*ms, 100),
        _ => panic!("Expected wait"),
    }
    match &actions[2] {
        InputAction::Type { text } => assert_eq!(text, ""),
        _ => panic!("Expected type"),
    }
}

#[test]
fn command_defaults() {
    match parse_command("   ", "") {
        InputCommand::Type { text, window_id } => assert!(text.is_empty() && window_id.is_empty()),
        _ => panic!("Expected empty type"),
    }
    match parse_command("click 3", "") {
        InputCommand::Click { x, y, window_id, button, double } => {
            assert_eq!((x, y, window_id.as_str(), button, double), (0, 0, "", MouseButton::Left, false));
        }
        _ => panic!("Expected click"),
    }
    match parse_command("type Win two words", "") {
        InputCommand::Type { text, window_id } => {
            assert_eq!(text, "two words");
            assert_eq!(window_id, "Win");
        }
        _ => panic!("Expected type"),
    }
    match parse_command("hello there", "") {
        InputCommand::Type { text, window_id } => {
            assert_eq!(text, "hello there");
            assert_eq!(window_id, "");
        }
        _ => panic!("Expected type"),
    }
    match parse_command("sequence Win", "wait 20") {
        InputCommand::Sequence { actions, window_id } => {
            assert_eq!(actions.len(), 1);
            assert_eq!(window_id, "Win");
        }
        _ => panic!("Expected sequence"),
    }
    match parse_command("key", "") {
        InputCommand::KeyPress { key, modifiers, window_id } => {
            assert!(key.is_empty() && modifiers.is_empty() && window_id.is_empty());
        }
        _ => panic!("Expected key"),
    }
}

use termineer::tools::input::macos::{get_key_code, get_modifier_flags};
use termineer::tools::ui::macos::input::{parse_key, parse_modifier, ModifierKey, SpecialKey};

#[test]
fn key_codes_by_name() {
    assert_eq!(get_key_code("a"), 0x00);
    assert_eq!(get_key_code("S"), 0x01);
    assert_eq!(get_key_code("Return"), 0x24);
    assert_eq!(get_key_code("enter"), get_key_code("return"));
    assert_eq!(get_key_code("ESC"), 0x35);
    assert_eq!(get_key_code("escape"), 0x35);
    assert_eq!(get_key_code("F5"), 0x60);
    assert_eq!(get_key_code("\\"), 0x2A);
    assert_eq!(get_key_code("uparrow"), 0x7E);
    assert_eq!(get_key_code("keypad9"), 0x5C);
}

#[test]
fn explicit_and_unknown_key_codes() {
    assert_eq!(get_key_code("keycode:99"), 99);
    assert_eq!(get_key_code("KEYCODE:+7"), 7);
    assert_eq!(get_key_code("keycode:70000"), 0x00);
    assert_eq!(get_key_code("keycode:"), 0x00);
    assert_eq!(get_key_code("nosuchkey"), 0x00);
}

#[test]
fn modifier_flags_combine_bits() {
    let ms = vec!["Cmd".to_string(), "shift".to_string(), "option".to_string(), "x".to_string()];
    assert_eq!(get_modifier_flags(&ms), 0x100 | 0x200 | 0x800);
    let ms = vec!["control".to_string(), "CTRL".to_string()];
    assert_eq!(get_modifier_flags(&ms), 0x1000);
    assert_eq!(get_modifier_flags(&vec![]), 0);
    let all = vec!["command".to_string(), "SHIFT".to_string(), "alt".to_string(), "ctrl".to_string()];
    assert_eq!(get_modifier_flags(&all), 0x1B00);
}

#[test]
fn special_keys_and_modifiers_by_name() {
    assert_eq!(parse_key("Enter"), Some(SpecialKey::Return));
    assert_eq!(parse_key("del"), Some(SpecialKey::Delete));
    assert_eq!(parse_key("F12"), Some(SpecialKey::F12));
    assert_eq!(parse_key("up"), Some(SpecialKey::UpArrow));
    assert_eq!(parse_key("pgup"), None);
    assert_eq!(parse_modifier("META"), Some(ModifierKey::Meta));
    assert_eq!(parse_modifier("option"), Some(ModifierKey::Alt));
    assert_eq!(parse_modifier("ctrl"), Some(ModifierKey::Control));
    assert_eq!(parse_modifier("hyper"), None);
}

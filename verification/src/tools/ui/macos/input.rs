//! Keys and modifiers of the macOS input actions, by name.
use vstd::prelude::*;
use crate::text::{self, lowercase};

verus! {

/// A key that is not typed as text.
#[derive(Debug, Clone, Copy, PartialEq, Eq, Structural)]
pub enum SpecialKey {
    Return,
    Tab,
    Space,
    Backspace,
    Escape,
    UpArrow,
    DownArrow,
    LeftArrow,
    RightArrow,
    Home,
    End,
    PageUp,
    PageDown,
    Delete,
    F1,
    F2,
    F3,
    F4,
    F5,
    F6,
    F7,
    F8,
    F9,
    F10,
    F11,
    F12,
}

/// A modifier key.
#[derive(Debug, Clone, Copy, PartialEq, Eq, Structural)]
pub enum ModifierKey {
    Meta,
    Shift,
    Alt,
    Control,
}

/// The special key that the name `k` (in lower case) names.
pub open spec fn special_key_of(k: Seq<char>) -> Option<SpecialKey> {
    if k == "return"@ || k == "enter"@ {
        Some(SpecialKey::Return)
    } else if k == "tab"@ {
        Some(SpecialKey::Tab)
    } else if k == "space"@ {
        Some(SpecialKey::Space)
    } else if k == "backspace"@ {
        Some(SpecialKey::Backspace)
    } else if k == "escape"@ || k == "esc"@ {
        Some(SpecialKey::Escape)
    } else if k == "up"@ || k == "uparrow"@ {
        Some(SpecialKey::UpArrow)
    } else if k == "down"@ || k == "downarrow"@ {
        Some(SpecialKey::DownArrow)
    } else if k == "left"@ || k == "leftarrow"@ {
        Some(SpecialKey::LeftArrow)
    } else if k == "right"@ || k == "rightarrow"@ {
        Some(SpecialKey::RightArrow)
    } else if k == "home"@ {
        Some(SpecialKey::Home)
    } else if k == "end"@ {
        Some(SpecialKey::End)
    } else if k == "pageup"@ {
        Some(SpecialKey::PageUp)
    } else if k == "pagedown"@ {
        Some(SpecialKey::PageDown)
    } else if k == "delete"@ || k == "del"@ {
        Some(SpecialKey::Delete)
    } else if k == "f1"@ {
        Some(SpecialKey::F1)
    } else if k == "f2"@ {
        Some(SpecialKey::F2)
    } else if k == "f3"@ {
        Some(SpecialKey::F3)
    } else if k == "f4"@ {
        Some(SpecialKey::F4)
    } else if k == "f5"@ {
        Some(SpecialKey::F5)
    } else if k == "f6"@ {
        Some(SpecialKey::F6)
    } else if k == "f7"@ {
        Some(SpecialKey::F7)
    } else if k == "f8"@ {
        Some(SpecialKey::F8)
    } else if k == "f9"@ {
        Some(SpecialKey::F9)
    } else if k == "f10"@ {
        Some(SpecialKey::F10)
    } else if k == "f11"@ {
        Some(SpecialKey::F11)
    } else if k == "f12"@ {
        Some(SpecialKey::F12)
    } else {
        None
    }
}

/// The special key that `key` names, in any case.
pub fn parse_key(key: &str) -> (r: Option<SpecialKey>)
    ensures
        r == special_key_of(lowercase(key@)),
{
    let k = text::to_lowercase(&text::str_chars(key));
    if text::chars_eq_str(&k, "return") || text::chars_eq_str(&k, "enter") {
        Some(SpecialKey::Return)
    } else if text::chars_eq_str(&k, "tab") {
        Some(SpecialKey::Tab)
    } else if text::chars_eq_str(&k, "space") {
        Some(SpecialKey::Space)
    } else if text::chars_eq_str(&k, "backspace") {
        Some(SpecialKey::Backspace)
    } else if text::chars_eq_str(&k, "escape") || text::chars_eq_str(&k, "esc") {
        Some(SpecialKey::Escape)
    } else if text::chars_eq_str(&k, "up") || text::chars_eq_str(&k, "uparrow") {
        Some(SpecialKey::UpArrow)
    } else if text::chars_eq_str(&k, "down") || text::chars_eq_str(&k, "downarrow") {
        Some(SpecialKey::DownArrow)
    } else if text::chars_eq_str(&k, "left") || text::chars_eq_str(&k, "leftarrow") {
        Some(SpecialKey::LeftArrow)
    } else if text::chars_eq_str(&k, "right") || text::chars_eq_str(&k, "rightarrow") {
        Some(SpecialKey::RightArrow)
    } else if text::chars_eq_str(&k, "home") {
        Some(SpecialKey::Home)
    } else if text::chars_eq_str(&k, "end") {
        Some(SpecialKey::End)
    } else if text::chars_eq_str(&k, "pageup") {
        Some(SpecialKey::PageUp)
    } else if text::chars_eq_str(&k, "pagedown") {
        Some(SpecialKey::PageDown)
    } else if text::chars_eq_str(&k, "delete") || text::chars_eq_str(&k, "del") {
        Some(SpecialKey::Delete)
    } else if text::chars_eq_str(&k, "f1") {
        Some(SpecialKey::F1)
    } else if text::chars_eq_str(&k, "f2") {
        Some(SpecialKey::F2)
    } else if text::chars_eq_str(&k, "f3") {
        Some(SpecialKey::F3)
    } else if text::chars_eq_str(&k, "f4") {
        Some(SpecialKey::F4)
    } else if text::chars_eq_str(&k, "f5") {
        Some(SpecialKey::F5)
    } else if text::chars_eq_str(&k, "f6") {
        Some(SpecialKey::F6)
    } else if text::chars_eq_str(&k, "f7") {
        Some(SpecialKey::F7)
    } else if text::chars_eq_str(&k, "f8") {
        Some(SpecialKey::F8)
    } else if text::chars_eq_str(&k, "f9") {
        Some(SpecialKey::F9)
    } else if text::chars_eq_str(&k, "f10") {
        Some(SpecialKey::F10)
    } else if text::chars_eq_str(&k, "f11") {
        Some(SpecialKey::F11)
    } else if text::chars_eq_str(&k, "f12") {
        Some(SpecialKey::F12)
    } else {
        None
    }
}

/// The modifier key that the name `k` (in lower case) names.
pub open spec fn modifier_key_of(k: Seq<char>) -> Option<ModifierKey> {
    if k == "command"@ || k == "cmd"@ || k == "meta"@ {
        Some(ModifierKey::Meta)
    } else if k == "shift"@ {
        Some(ModifierKey::Shift)
    } else if k == "alt"@ || k == "option"@ {
        Some(ModifierKey::Alt)
    } else if k == "control"@ || k == "ctrl"@ {
        Some(ModifierKey::Control)
    } else {
        None
    }
}

/// Parse modifier key
pub fn parse_modifier(modifier: &str) -> (r: Option<ModifierKey>)
    ensures
        r == modifier_key_of(lowercase(modifier@)),
{
    let k = text::to_lowercase(&text::str_chars(modifier));
    if text::chars_eq_str(&k, "command") || text::chars_eq_str(&k, "cmd") || text::chars_eq_str(&k, "meta") {
        Some(ModifierKey::Meta)
    } else if text::chars_eq_str(&k, "shift") {
        Some(ModifierKey::Shift)
    } else if text::chars_eq_str(&k, "alt") || text::chars_eq_str(&k, "option") {
        Some(ModifierKey::Alt)
    } else if text::chars_eq_str(&k, "control") || text::chars_eq_str(&k, "ctrl") {
        Some(ModifierKey::Control)
    } else {
        None
    }
}

} // verus!

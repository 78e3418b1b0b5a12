//! Keyboard codes and modifier flags of macOS key events. Posting the events
//! is the application's part; naming the keys is here.
use vstd::prelude::*;
use crate::text::{self, lowercase, starts_with, parse_bounded};

verus! {

/// The virtual key code of the macOS key named `k`, where there is one.
pub open spec fn key_code_of(k: Seq<char>) -> Option<u16> {
    if k == "a"@ {
        Some(0x00u16)
    } else if k == "s"@ {
        Some(0x01u16)
    } else if k == "d"@ {
        Some(0x02u16)
    } else if k == "f"@ {
        Some(0x03u16)
    } else if k == "h"@ {
        Some(0x04u16)
    } else if k == "g"@ {
        Some(0x05u16)
    } else if k == "z"@ {
        Some(0x06u16)
    } else if k == "x"@ {
        Some(0x07u16)
    } else if k == "c"@ {
        Some(0x08u16)
    } else if k == "v"@ {
        Some(0x09u16)
    } else if k == "b"@ {
        Some(0x0Bu16)
    } else if k == "q"@ {
        Some(0x0Cu16)
    } else if k == "w"@ {
        Some(0x0Du16)
    } else if k == "e"@ {
        Some(0x0Eu16)
    } else if k == "r"@ {
        Some(0x0Fu16)
    } else if k == "y"@ {
        Some(0x10u16)
    } else if k == "t"@ {
        Some(0x11u16)
    } else if k == "1"@ {
        Some(0x12u16)
    } else if k == "2"@ {
        Some(0x13u16)
    } else if k == "3"@ {
        Some(0x14u16)
    } else if k == "4"@ {
        Some(0x15u16)
    } else if k == "6"@ {
        Some(0x16u16)
    } else if k == "5"@ {
        Some(0x17u16)
    } else if k == "="@ {
        Some(0x18u16)
    } else if k == "9"@ {
        Some(0x19u16)
    } else if k == "7"@ {
        Some(0x1Au16)
    } else if k == "-"@ {
        Some(0x1Bu16)
    } else if k == "8"@ {
        Some(0x1Cu16)
    } else if k == "0"@ {
        Some(0x1Du16)
    } else if k == "]"@ {
        Some(0x1Eu16)
    } else if k == "o"@ {
        Some(0x1Fu16)
    } else if k == "u"@ {
        Some(0x20u16)
    } else if k == "["@ {
        Some(0x21u16)
    } else if k == "i"@ {
        Some(0x22u16)
    } else if k == "p"@ {
        Some(0x23u16)
    } else if k == "return"@ {
        Some(0x24u16)
    } else if k == "l"@ {
        Some(0x25u16)
    } else if k == "j"@ {
        Some(0x26u16)
    } else if k == "'"@ {
        Some(0x27u16)
    } else if k == "k"@ {
        Some(0x28u16)
    } else if k == ";"@ {
        Some(0x29u16)
    } else if k == "\\"@ {
        Some(0x2Au16)
    } else if k == ","@ {
        Some(0x2Bu16)
    } else if k == "/"@ {
        Some(0x2Cu16)
    } else if k == "n"@ {
        Some(0x2Du16)
    } else if k == "m"@ {
        Some(0x2Eu16)
    } else if k == "."@ {
        Some(0x2Fu16)
    } else if k == "tab"@ {
        Some(0x30u16)
    } else if k == "space"@ {
        Some(0x31u16)
    } else if k == "`"@ {
        Some(0x32u16)
    } else if k == "delete"@ {
        Some(0x33u16)
    } else if k == "escape"@ {
        Some(0x35u16)
    } else if k == "command"@ {
        Some(0x37u16)
    } else if k == "shift"@ {
        Some(0x38u16)
    } else if k == "capslock"@ {
        Some(0x39u16)
    } else if k == "option"@ {
        Some(0x3Au16)
    } else if k == "control"@ {
        Some(0x3Bu16)
    } else if k == "rightshift"@ {
        Some(0x3Cu16)
    } else if k == "rightoption"@ {
        Some(0x3Du16)
    } else if k == "rightcontrol"@ {
        Some(0x3Eu16)
    } else if k == "fn"@ {
        Some(0x3Fu16)
    } else if k == "f17"@ {
        Some(0x40u16)
    } else if k == "keypad."@ {
        Some(0x41u16)
    } else if k == "keypad*"@ {
        Some(0x43u16)
    } else if k == "keypad+"@ {
        Some(0x45u16)
    } else if k == "keypadclear"@ {
        Some(0x47u16)
    } else if k == "volumeup"@ {
        Some(0x48u16)
    } else if k == "volumedown"@ {
        Some(0x49u16)
    } else if k == "mute"@ {
        Some(0x4Au16)
    } else if k == "keypad/"@ {
        Some(0x4Bu16)
    } else if k == "keypadenter"@ {
        Some(0x4Cu16)
    } else if k == "keypad-"@ {
        Some(0x4Eu16)
    } else if k == "f18"@ {
        Some(0x4Fu16)
    } else if k == "f19"@ {
        Some(0x50u16)
    } else if k == "keypad="@ {
        Some(0x51u16)
    } else if k == "keypad0"@ {
        Some(0x52u16)
    } else if k == "keypad1"@ {
        Some(0x53u16)
    } else if k == "keypad2"@ {
        Some(0x54u16)
    } else if k == "keypad3"@ {
        Some(0x55u16)
    } else if k == "keypad4"@ {
        Some(0x56u16)
    } else if k == "keypad5"@ {
        Some(0x57u16)
    } else if k == "keypad6"@ {
        Some(0x58u16)
    } else if k == "keypad7"@ {
        Some(0x59u16)
    } else if k == "f20"@ {
        Some(0x5Au16)
    } else if k == "keypad8"@ {
        Some(0x5Bu16)
    } else if k == "keypad9"@ {
        Some(0x5Cu16)
    } else if k == "f5"@ {
        Some(0x60u16)
    } else if k == "f6"@ {
        Some(0x61u16)
    } else if k == "f7"@ {
        Some(0x62u16)
    } else if k == "f3"@ {
        Some(0x63u16)
    } else if k == "f8"@ {
        Some(0x64u16)
    } else if k == "f9"@ {
        Some(0x65u16)
    } else if k == "f11"@ {
        Some(0x67u16)
    } else if k == "f13"@ {
        Some(0x69u16)
    } else if k == "f16"@ {
        Some(0x6Au16)
    } else if k == "f14"@ {
        Some(0x6Bu16)
    } else if k == "f10"@ {
        Some(0x6Du16)
    } else if k == "f12"@ {
        Some(0x6Fu16)
    } else if k == "f15"@ {
        Some(0x71u16)
    } else if k == "home"@ {
        Some(0x73u16)
    } else if k == "pageup"@ {
        Some(0x74u16)
    } else if k == "forwarddelete"@ {
        Some(0x75u16)
    } else if k == "f4"@ {
        Some(0x76u16)
    } else if k == "end"@ {
        Some(0x77u16)
    } else if k == "f2"@ {
        Some(0x78u16)
    } else if k == "pagedown"@ {
        Some(0x79u16)
    } else if k == "f1"@ {
        Some(0x7Au16)
    } else if k == "leftarrow"@ {
        Some(0x7Bu16)
    } else if k == "rightarrow"@ {
        Some(0x7Cu16)
    } else if k == "downarrow"@ {
        Some(0x7Du16)
    } else if k == "uparrow"@ {
        Some(0x7Eu16)
    } else {
        None
    }
}

/// The code of the key named `k` (already in lower case), where there is one.
pub fn lookup_key_code(k: &Vec<char>) -> (r: Option<u16>)
    ensures
        r == key_code_of(k@),
{
    if text::chars_eq_str(k, "a") {
        Some(0x00u16)
    } else if text::chars_eq_str(k, "s") {
        Some(0x01u16)
    } else if text::chars_eq_str(k, "d") {
        Some(0x02u16)
    } else if text::chars_eq_str(k, "f") {
        Some(0x03u16)
    } else if text::chars_eq_str(k, "h") {
        Some(0x04u16)
    } else if text::chars_eq_str(k, "g") {
        Some(0x05u16)
    } else if text::chars_eq_str(k, "z") {
        Some(0x06u16)
    } else if text::chars_eq_str(k, "x") {
        Some(0x07u16)
    } else if text::chars_eq_str(k, "c") {
        Some(0x08u16)
    } else if text::chars_eq_str(k, "v") {
        Some(0x09u16)
    } else if text::chars_eq_str(k, "b") {
        Some(0x0Bu16)
    } else if text::chars_eq_str(k, "q") {
        Some(0x0Cu16)
    } else if text::chars_eq_str(k, "w") {
        Some(0x0Du16)
    } else if text::chars_eq_str(k, "e") {
        Some(0x0Eu16)
    } else if text::chars_eq_str(k, "r") {
        Some(0x0Fu16)
    } else if text::chars_eq_str(k, "y") {
        Some(0x10u16)
    } else if text::chars_eq_str(k, "t") {
        Some(0x11u16)
    } else if text::chars_eq_str(k, "1") {
        Some(0x12u16)
    } else if text::chars_eq_str(k, "2") {
        Some(0x13u16)
    } else if text::chars_eq_str(k, "3") {
        Some(0x14u16)
    } else if text::chars_eq_str(k, "4") {
        Some(0x15u16)
    } else if text::chars_eq_str(k, "6") {
        Some(0x16u16)
    } else if text::chars_eq_str(k, "5") {
        Some(0x17u16)
    } else if text::chars_eq_str(k, "=") {
        Some(0x18u16)
    } else if text::chars_eq_str(k, "9") {
        Some(0x19u16)
    } else if text::chars_eq_str(k, "7") {
        Some(0x1Au16)
    } else if text::chars_eq_str(k, "-") {
        Some(0x1Bu16)
    } else if text::chars_eq_str(k, "8") {
        Some(0x1Cu16)
    } else if text::chars_eq_str(k, "0") {
        Some(0x1Du16)
    } else if text::chars_eq_str(k, "]") {
        Some(0x1Eu16)
    } else if text::chars_eq_str(k, "o") {
        Some(0x1Fu16)
    } else if text::chars_eq_str(k, "u") {
        Some(0x20u16)
    } else if text::chars_eq_str(k, "[") {
        Some(0x21u16)
    } else if text::chars_eq_str(k, "i") {
        Some(0x22u16)
    } else if text::chars_eq_str(k, "p") {
        Some(0x23u16)
    } else if text::chars_eq_str(k, "return") {
        Some(0x24u16)
    } else if text::chars_eq_str(k, "l") {
        Some(0x25u16)
    } else if text::chars_eq_str(k, "j") {
        Some(0x26u16)
    } else if text::chars_eq_str(k, "'") {
        Some(0x27u16)
    } else if text::chars_eq_str(k, "k") {
        Some(0x28u16)
    } else if text::chars_eq_str(k, ";") {
        Some(0x29u16)
    } else if text::chars_eq_str(k, "\\") {
        Some(0x2Au16)
    } else if text::chars_eq_str(k, ",") {
        Some(0x2Bu16)
    } else if text::chars_eq_str(k, "/") {
        Some(0x2Cu16)
    } else if text::chars_eq_str(k, "n") {
        Some(0x2Du16)
    } else if text::chars_eq_str(k, "m") {
        Some(0x2Eu16)
    } else if text::chars_eq_str(k, ".") {
        Some(0x2Fu16)
    } else if text::chars_eq_str(k, "tab") {
        Some(0x30u16)
    } else if text::chars_eq_str(k, "space") {
        Some(0x31u16)
    } else if text::chars_eq_str(k, "`") {
        Some(0x32u16)
    } else if text::chars_eq_str(k, "delete") {
        Some(0x33u16)
    } else if text::chars_eq_str(k, "escape") {
        Some(0x35u16)
    } else if text::chars_eq_str(k, "command") {
        Some(0x37u16)
    } else if text::chars_eq_str(k, "shift") {
        Some(0x38u16)
    } else if text::chars_eq_str(k, "capslock") {
        Some(0x39u16)
    } else if text::chars_eq_str(k, "option") {
        Some(0x3Au16)
    } else if text::chars_eq_str(k, "control") {
        Some(0x3Bu16)
    } else if text::chars_eq_str(k, "rightshift") {
        Some(0x3Cu16)
    } else if text::chars_eq_str(k, "rightoption") {
        Some(0x3Du16)
    } else if text::chars_eq_str(k, "rightcontrol") {
        Some(0x3Eu16)
    } else if text::chars_eq_str(k, "fn") {
        Some(0x3Fu16)
    } else if text::chars_eq_str(k, "f17") {
        Some(0x40u16)
    } else if text::chars_eq_str(k, "keypad.") {
        Some(0x41u16)
    } else if text::chars_eq_str(k, "keypad*") {
        Some(0x43u16)
    } else if text::chars_eq_str(k, "keypad+") {
        Some(0x45u16)
    } else if text::chars_eq_str(k, "keypadclear") {
        Some(0x47u16)
    } else if text::chars_eq_str(k, "volumeup") {
        Some(0x48u16)
    } else if text::chars_eq_str(k, "volumedown") {
        Some(0x49u16)
    } else if text::chars_eq_str(k, "mute") {
        Some(0x4Au16)
    } else if text::chars_eq_str(k, "keypad/") {
        Some(0x4Bu16)
    } else if text::chars_eq_str(k, "keypadenter") {
        Some(0x4Cu16)
    } else if text::chars_eq_str(k, "keypad-") {
        Some(0x4Eu16)
    } else if text::chars_eq_str(k, "f18") {
        Some(0x4Fu16)
    } else if text::chars_eq_str(k, "f19") {
        Some(0x50u16)
    } else if text::chars_eq_str(k, "keypad=") {
        Some(0x51u16)
    } else if text::chars_eq_str(k, "keypad0") {
        Some(0x52u16)
    } else if text::chars_eq_str(k, "keypad1") {
        Some(0x53u16)
    } else if text::chars_eq_str(k, "keypad2") {
        Some(0x54u16)
    } else if text::chars_eq_str(k, "keypad3") {
        Some(0x55u16)
    } else if text::chars_eq_str(k, "keypad4") {
        Some(0x56u16)
    } else if text::chars_eq_str(k, "keypad5") {
        Some(0x57u16)
    } else if text::chars_eq_str(k, "keypad6") {
        Some(0x58u16)
    } else if text::chars_eq_str(k, "keypad7") {
        Some(0x59u16)
    } else if text::chars_eq_str(k, "f20") {
        Some(0x5Au16)
    } else if text::chars_eq_str(k, "keypad8") {
        Some(0x5Bu16)
    } else if text::chars_eq_str(k, "keypad9") {
        Some(0x5Cu16)
    } else if text::chars_eq_str(k, "f5") {
        Some(0x60u16)
    } else if text::chars_eq_str(k, "f6") {
        Some(0x61u16)
    } else if text::chars_eq_str(k, "f7") {
        Some(0x62u16)
    } else if text::chars_eq_str(k, "f3") {
        Some(0x63u16)
    } else if text::chars_eq_str(k, "f8") {
        Some(0x64u16)
    } else if text::chars_eq_str(k, "f9") {
        Some(0x65u16)
    } else if text::chars_eq_str(k, "f11") {
        Some(0x67u16)
    } else if text::chars_eq_str(k, "f13") {
        Some(0x69u16)
    } else if text::chars_eq_str(k, "f16") {
        Some(0x6Au16)
    } else if text::chars_eq_str(k, "f14") {
        Some(0x6Bu16)
    } else if text::chars_eq_str(k, "f10") {
        Some(0x6Du16)
    } else if text::chars_eq_str(k, "f12") {
        Some(0x6Fu16)
    } else if text::chars_eq_str(k, "f15") {
        Some(0x71u16)
    } else if text::chars_eq_str(k, "home") {
        Some(0x73u16)
    } else if text::chars_eq_str(k, "pageup") {
        Some(0x74u16)
    } else if text::chars_eq_str(k, "forwarddelete") {
        Some(0x75u16)
    } else if text::chars_eq_str(k, "f4") {
        Some(0x76u16)
    } else if text::chars_eq_str(k, "end") {
        Some(0x77u16)
    } else if text::chars_eq_str(k, "f2") {
        Some(0x78u16)
    } else if text::chars_eq_str(k, "pagedown") {
        Some(0x79u16)
    } else if text::chars_eq_str(k, "f1") {
        Some(0x7Au16)
    } else if text::chars_eq_str(k, "leftarrow") {
        Some(0x7Bu16)
    } else if text::chars_eq_str(k, "rightarrow") {
        Some(0x7Cu16)
    } else if text::chars_eq_str(k, "downarrow") {
        Some(0x7Du16)
    } else if text::chars_eq_str(k, "uparrow") {
        Some(0x7Eu16)
    } else {
        None
    }
}

/// The key code that a key event for the key `key` carries: for a name of
/// the form `keycode:N` with `N` a `u16`, `N`; else the code of the key the
/// name (in lower case) names, where there is one; `enter` and `esc` name
/// the codes of `return` and `escape`; any other name gets the code of `a`.
pub open spec fn key_code(key: Seq<char>) -> u16 {
    let k = lowercase(key);
    if starts_with(k, "keycode:"@) && parse_bounded(k.skip(8), 0xFFFF) is Some {
        parse_bounded(k.skip(8), 0xFFFF).unwrap() as u16
    } else {
        match key_code_of(k) {
            Some(c) => c,
            None => if k == "enter"@ {
                0x24u16
            } else if k == "esc"@ {
                0x35u16
            } else {
                0x00u16
            },
        }
    }
}

/// Get the key code for a key
pub fn get_key_code(key: &str) -> (r: u16)
    ensures
        r == key_code(key@),
{
    let k = text::to_lowercase(&text::str_chars(key));
    if text::has_prefix_str(&k, "keycode:") {
        proof {
            reveal_strlit("keycode:");
        }
        assert(k@.len() >= 8);
        let rest = text::copy_range(&k, 8, k.len());
        assert(rest@ =~= k@.skip(8));
        if let Some(code) = text::parse_u16(&rest) {
            return code;
        }
    }
    match lookup_key_code(&k) {
        Some(c) => c,
        None => {
            if text::chars_eq_str(&k, "enter") {
                0x24
            } else if text::chars_eq_str(&k, "esc") {
                0x35
            } else {
                0x00
            }
        },
    }
}

/// Some modifier, in lower case, is `a` or `b`.
pub open spec fn has_modifier(ms: Seq<String>, a: Seq<char>, b: Seq<char>) -> bool {
    exists|i: int| 0 <= i < ms.len() && (lowercase(#[trigger] ms[i]@) == a || lowercase(ms[i]@) == b)
}

/// The event flags of the modifiers `ms`: command, shift, option and
/// control, each by its bit, by either of its names, in any case.
pub open spec fn modifier_flags(ms: Seq<String>) -> int {
    (if has_modifier(ms, "cmd"@, "command"@) {
        0x100int
    } else {
        0
    }) + (if has_modifier(ms, "shift"@, "shift"@) {
        0x200int
    } else {
        0
    }) + (if has_modifier(ms, "alt"@, "option"@) {
        0x800int
    } else {
        0
    }) + (if has_modifier(ms, "ctrl"@, "control"@) {
        0x1000int
    } else {
        0
    })
}

/// Convert string modifiers to event flags
pub fn get_modifier_flags(modifiers: &Vec<String>) -> (r: u64)
    ensures
        r == modifier_flags(modifiers@),
{
    let mut cmd = false;
    let mut shift = false;
    let mut alt = false;
    let mut ctrl = false;
    let mut i: usize = 0;
    while i < modifiers.len()
        invariant
            i <= modifiers.len(),
            cmd == has_modifier(modifiers@.take(i as int), "cmd"@, "command"@),
            shift == has_modifier(modifiers@.take(i as int), "shift"@, "shift"@),
            alt == has_modifier(modifiers@.take(i as int), "alt"@, "option"@),
            ctrl == has_modifier(modifiers@.take(i as int), "ctrl"@, "control"@),
        decreases modifiers.len() - i,
    {
        let m = text::to_lowercase(&text::str_chars(modifiers[i].as_str()));
        let ghost pre = modifiers@.take(i as int);
        let ghost now = modifiers@.take(i as int + 1);
        assert(now =~= pre.push(modifiers@[i as int]));
        let c1 = text::chars_eq_str(&m, "cmd") || text::chars_eq_str(&m, "command");
        let c2 = text::chars_eq_str(&m, "shift");
        let c3 = text::chars_eq_str(&m, "alt") || text::chars_eq_str(&m, "option");
        let c4 = text::chars_eq_str(&m, "ctrl") || text::chars_eq_str(&m, "control");
        proof {
            assert(now[i as int] == modifiers@[i as int]);
            assert forall|a: Seq<char>, b: Seq<char>| #[trigger] has_modifier(now, a, b) == (
            has_modifier(pre, a, b) || lowercase(modifiers@[i as int]@) == a || lowercase(
                modifiers@[i as int]@,
            ) == b) by {
                if has_modifier(now, a, b) {
                    let j = choose|j: int|
                        0 <= j < now.len() && (lowercase(#[trigger] now[j]@) == a || lowercase(
                            now[j]@,
                        ) == b);
                    if j < i {
                        assert(pre[j] == now[j]);
                    }
                }
                if has_modifier(pre, a, b) {
                    let j = choose|j: int|
                        0 <= j < pre.len() && (lowercase(#[trigger] pre[j]@) == a || lowercase(
                            pre[j]@,
                        ) == b);
                    assert(now[j] == pre[j]);
                }
            }
        }
        cmd = cmd || c1;
        shift = shift || c2;
        alt = alt || c3;
        ctrl = ctrl || c4;
        i = i + 1;
    }
    assert(modifiers@.take(modifiers.len() as int) =~= modifiers@);
    let mut flags: u64 = 0;
    if cmd {
        flags = flags + 0x100;
    }
    if shift {
        flags = flags + 0x200;
    }
    if alt {
        flags = flags + 0x800;
    }
    if ctrl {
        flags = flags + 0x1000;
    }
    flags
}

} // verus!

//! Commands of the input tool: mouse clicks, typing, key presses and
//! sequences of them, read from the tool's arguments and body.
pub mod macos;
use vstd::prelude::*;
use crate::json::{self, JsonValue};
use crate::text::{self, join, lines, lowercase, parse_bounded, parse_int_bounded, split_on, starts_with, trim, views, words};



verus! {

/// Mouse button types
#[derive(Debug, Clone, Copy, PartialEq, Eq, Structural)]
pub enum MouseButton {
    Left,
    Right,
    Middle,
}

/// Individual input action
#[derive(Debug, Clone)]
pub enum InputAction {
    /// Click at coordinates
    Click { x: i32, y: i32, button: MouseButton, double: bool },
    /// Type text
    Type { text: String },
    /// Press a keyboard shortcut
    KeyPress { key: String, modifiers: Vec<String> },
    /// Wait for some milliseconds
    Wait { ms: u64 },
}

/// Command types for the input tool
#[derive(Debug, Clone)]
pub enum InputCommand {
    /// Click at coordinates in a window
    Click { x: i32, y: i32, window_id: String, button: MouseButton, double: bool },
    /// Type text into a window
    Type { text: String, window_id: String },
    /// Press a keyboard shortcut
    KeyPress { key: String, modifiers: Vec<String>, window_id: String },
    /// Execute a sequence of actions
    Sequence { actions: Vec<InputAction>, window_id: String },
}

/// An input action, with its texts as character sequences.
pub enum ActionModel {
    Click { x: i32, y: i32, button: MouseButton, double: bool },
    Type { text: Seq<char> },
    KeyPress { key: Seq<char>, modifiers: Seq<Seq<char>> },
    Wait { ms: u64 },
}

/// An input command, with its texts as character sequences.
pub enum CommandModel {
    Click { x: i32, y: i32, window_id: Seq<char>, button: MouseButton, double: bool },
    Type { text: Seq<char>, window_id: Seq<char> },
    KeyPress { key: Seq<char>, modifiers: Seq<Seq<char>>, window_id: Seq<char> },
    Sequence { actions: Seq<ActionModel>, window_id: Seq<char> },
}

impl View for InputAction {
    type V = ActionModel;

    open spec fn view(&self) -> ActionModel {
        match self {
            InputAction::Click { x, y, button, double } => ActionModel::Click {
                x: *x,
                y: *y,
                button: *button,
                double: *double,
            },
            InputAction::Type { text } => ActionModel::Type { text: text@ },
            InputAction::KeyPress { key, modifiers } => ActionModel::KeyPress {
                key: key@,
                modifiers: text::string_views(modifiers@),
            },
            InputAction::Wait { ms } => ActionModel::Wait { ms: *ms },
        }
    }
}

/// The models of a sequence of actions.
pub open spec fn action_models(v: Seq<InputAction>) -> Seq<ActionModel> {
    v.map_values(|a: InputAction| a@)
}

impl View for InputCommand {
    type V = CommandModel;

    open spec fn view(&self) -> CommandModel {
        match self {
            InputCommand::Click { x, y, window_id, button, double } => CommandModel::Click {
                x: *x,
                y: *y,
                window_id: window_id@,
                button: *button,
                double: *double,
            },
            InputCommand::Type { text, window_id } => CommandModel::Type {
                text: text@,
                window_id: window_id@,
            },
            InputCommand::KeyPress { key, modifiers, window_id } => CommandModel::KeyPress {
                key: key@,
                modifiers: text::string_views(modifiers@),
                window_id: window_id@,
            },
            InputCommand::Sequence { actions, window_id } => CommandModel::Sequence {
                actions: action_models(actions@),
                window_id: window_id@,
            },
        }
    }
}

// ---------------------------------------------------------------------------
// Specification
// ---------------------------------------------------------------------------

/// A coordinate: the `i32` that `s` writes, or 0.
pub open spec fn coordinate(s: Seq<char>) -> i32 {
    match parse_int_bounded(s, i32::MIN as int, i32::MAX as int) {
        Some(v) => v as i32,
        None => 0,
    }
}

/// The word at `i`, or the empty text where there is none.
pub open spec fn word_or_empty(parts: Seq<Seq<char>>, i: int) -> Seq<char> {
    if parts.len() > i {
        parts[i]
    } else {
        seq![]
    }
}

/// Reads the options that follow the coordinates of a click, left to right:
/// `--right` and `--middle` pick the button, `--double` makes a double
/// click, and (where `with_window`) any other word not starting with `--`
/// names the window. Gives (window, button, double).
pub open spec fn click_options(opts: Seq<Seq<char>>, with_window: bool) -> (
    Seq<char>,
    MouseButton,
    bool,
)
    decreases opts.len(),
{
    if opts.len() == 0 {
        (seq![], MouseButton::Left, false)
    } else {
        let (w, b, d) = click_options(opts.drop_last(), with_window);
        let o = opts.last();
        if o == "--right"@ {
            (w, MouseButton::Right, d)
        } else if o == "--middle"@ {
            (w, MouseButton::Middle, d)
        } else if o == "--double"@ {
            (w, b, true)
        } else if with_window && !starts_with(o, "--"@) {
            (o, b, d)
        } else {
            (w, b, d)
        }
    }
}

/// The action that one line of a text sequence describes, if any.
pub open spec fn line_action(line: Seq<char>) -> Option<ActionModel> {
    let parts = words(trim(line));
    if parts.len() == 0 {
        None
    } else {
        let kw = lowercase(parts[0]);
        if kw == "click"@ {
            if parts.len() < 3 {
                None
            } else {
                let (_w, b, d) = click_options(parts.skip(3), false);
                Some(
                    ActionModel::Click {
                        x: coordinate(parts[1]),
                        y: coordinate(parts[2]),
                        button: b,
                        double: d,
                    },
                )
            }
        } else if kw == "type"@ {
            Some(
                ActionModel::Type {
                    text: if parts.len() > 1 {
                        join(parts.skip(1), " "@)
                    } else {
                        seq![]
                    },
                },
            )
        } else if kw == "key"@ {
            if parts.len() < 2 {
                None
            } else {
                let kp = split_on(parts[1], '+');
                Some(ActionModel::KeyPress { key: kp.last(), modifiers: kp.drop_last() })
            }
        } else if kw == "wait"@ {
            Some(
                ActionModel::Wait {
                    ms: if parts.len() > 1 {
                        match parse_bounded(parts[1], u64::MAX as int) {
                            Some(v) => v as u64,
                            None => 100,
                        }
                    } else {
                        100
                    },
                },
            )
        } else {
            None
        }
    }
}

/// A `type` line types every word after the keyword, in order, with single
/// spaces between them: for the words `type w1 w2 ... wn` of a line the
/// text typed is `w1 w2 ... wn`, and the text of the first `k` words is
/// followed by a space and word `k + 1`.
pub proof fn law_type_line_types_every_word(line: Seq<char>)
    requires
        words(trim(line)).len() >= 2,
        lowercase(words(trim(line))[0]) == "type"@,
    ensures
        ({
            let ws = words(trim(line)).skip(1);
            &&& line_action(line) == Some(ActionModel::Type { text: join(ws, " "@) })
            &&& join(ws.take(1), " "@) == ws[0]
            &&& forall|k: int|
                1 <= k < ws.len() ==> #[trigger] join(ws.take(k + 1), " "@) == join(ws.take(k), " "@)
                    + " "@ + ws[k]
        }),
{
    let ws = words(trim(line)).skip(1);
    reveal_strlit("type");
    reveal_strlit("click");
    assert("type"@ != "click"@) by {
        assert("type"@[0] != "click"@[0]);
    }
    assert(ws.take(1).len() == 1);
    assert forall|k: int| 1 <= k < ws.len() implies #[trigger] join(ws.take(k + 1), " "@) == join(
        ws.take(k),
        " "@,
    ) + " "@ + ws[k] by {
        assert(ws.take(k + 1).drop_last() =~= ws.take(k));
    }
}

/// The actions that the lines `ls` describe, in order.
pub open spec fn text_actions(ls: Seq<Seq<char>>) -> Seq<ActionModel>
    decreases ls.len(),
{
    if ls.len() == 0 {
        seq![]
    } else {
        let rest = text_actions(ls.drop_last());
        match line_action(ls.last()) {
            Some(a) => rest.push(a),
            None => rest,
        }
    }
}

/// The strings among `vs`, in order.
pub open spec fn json_strings(vs: Seq<JsonValue>) -> Seq<Seq<char>>
    decreases vs.len(),
{
    if vs.len() == 0 {
        seq![]
    } else {
        let rest = json_strings(vs.drop_last());
        match json::as_str(Some(vs.last())) {
            Some(s) => rest.push(s),
            None => rest,
        }
    }
}

/// The action that one JSON object of a sequence describes, if any: its
/// `type` picks the kind, missing fields take their defaults.
pub open spec fn json_action(v: JsonValue) -> Option<ActionModel> {
    match json::as_str(json::get(v, "type"@)) {
        Some(t) => if t == "click"@ {
            let b = match json::as_str(json::get(v, "button"@)) {
                Some(s) => s,
                None => "left"@,
            };
            Some(
                ActionModel::Click {
                    x: match json::as_i64(json::get(v, "x"@)) {
                        Some(n) => #[verifier::truncate] (n as i32),
                        None => 0,
                    },
                    y: match json::as_i64(json::get(v, "y"@)) {
                        Some(n) => #[verifier::truncate] (n as i32),
                        None => 0,
                    },
                    button: if b == "right"@ {
                        MouseButton::Right
                    } else if b == "middle"@ {
                        MouseButton::Middle
                    } else {
                        MouseButton::Left
                    },
                    double: match json::as_bool(json::get(v, "double"@)) {
                        Some(d) => d,
                        None => false,
                    },
                },
            )
        } else if t == "type"@ {
            Some(
                ActionModel::Type {
                    text: match json::as_str(json::get(v, "text"@)) {
                        Some(s) => s,
                        None => seq![],
                    },
                },
            )
        } else if t == "key"@ {
            Some(
                ActionModel::KeyPress {
                    key: match json::as_str(json::get(v, "key"@)) {
                        Some(s) => s,
                        None => seq![],
                    },
                    modifiers: match json::as_array(json::get(v, "modifiers"@)) {
                        Some(a) => json_strings(a),
                        None => seq![],
                    },
                },
            )
        } else if t == "wait"@ {
            Some(
                ActionModel::Wait {
                    ms: match json::as_u64(json::get(v, "ms"@)) {
                        Some(n) => n,
                        None => 100,
                    },
                },
            )
        } else {
            None
        },
        None => None,
    }
}

/// The actions that the JSON values `vs` describe, in order.
pub open spec fn json_actions(vs: Seq<JsonValue>) -> Seq<ActionModel>
    decreases vs.len(),
{
    if vs.len() == 0 {
        seq![]
    } else {
        let rest = json_actions(vs.drop_last());
        match json_action(vs.last()) {
            Some(a) => rest.push(a),
            None => rest,
        }
    }
}

/// The actions that a sequence body describes: where `json` and the trimmed
/// body starts with `[`, the elements of the JSON array it holds (none if it
/// is not one); otherwise one action per line.
pub open spec fn actions_of(body: Seq<char>, json: bool) -> Seq<ActionModel> {
    if json && starts_with(trim(body), "["@) {
        match json::json_array_of(body) {
            Some(vs) => json_actions(vs),
            None => seq![],
        }
    } else {
        text_actions(lines(body))
    }
}

/// The command that the tool's arguments and body describe.
pub open spec fn command_of(args: Seq<char>, body: Seq<char>, json: bool) -> CommandModel {
    let a = trim(args);
    let parts = words(a);
    if parts.len() == 0 {
        CommandModel::Type { text: seq![], window_id: seq![] }
    } else {
        let kw = lowercase(parts[0]);
        if kw == "click"@ {
            if parts.len() < 3 {
                CommandModel::Click {
                    x: 0,
                    y: 0,
                    window_id: seq![],
                    button: MouseButton::Left,
                    double: false,
                }
            } else {
                let (w, b, d) = click_options(parts.skip(3), true);
                CommandModel::Click {
                    x: coordinate(parts[1]),
                    y: coordinate(parts[2]),
                    window_id: w,
                    button: b,
                    double: d,
                }
            }
        } else if kw == "type"@ {
            CommandModel::Type {
                text: if body.len() == 0 {
                    if parts.len() > 2 {
                        join(parts.skip(2), " "@)
                    } else {
                        seq![]
                    }
                } else {
                    body
                },
                window_id: word_or_empty(parts, 1),
            }
        } else if kw == "key"@ {
            if parts.len() < 2 {
                CommandModel::KeyPress { key: seq![], modifiers: seq![], window_id: seq![] }
            } else {
                let kp = split_on(parts[1], '+');
                CommandModel::KeyPress {
                    key: kp.last(),
                    modifiers: kp.drop_last(),
                    window_id: word_or_empty(parts, 2),
                }
            }
        } else if kw == "sequence"@ {
            CommandModel::Sequence {
                actions: actions_of(body, json),
                window_id: word_or_empty(parts, 1),
            }
        } else {
            CommandModel::Type { text: a, window_id: seq![] }
        }
    }
}

// ---------------------------------------------------------------------------
// Implementation
// ---------------------------------------------------------------------------

/// The strings held by `parts[from..]`.
pub fn strings_from(parts: &Vec<Vec<char>>, from: usize) -> (r: Vec<String>)
    requires
        from <= parts.len(),
    ensures
        text::string_views(r@) == views(parts@).skip(from as int),
{
    let mut r: Vec<String> = Vec::new();
    let mut i = from;
    while i < parts.len()
        invariant
            from <= i <= parts.len(),
            text::string_views(r@) == views(parts@).subrange(from as int, i as int),
        decreases parts.len() - i,
    {
        let ghost before = r@;
        r.push(text::chars_to_string(&parts[i]));
        assert(text::string_views(r@) =~= text::string_views(before).push(parts@[i as int]@));
        assert(views(parts@).subrange(from as int, i + 1) =~= views(parts@).subrange(
            from as int,
            i as int,
        ).push(parts@[i as int]@));
        i = i + 1;
    }
    assert(views(parts@).subrange(from as int, parts.len() as int) =~= views(parts@).skip(
        from as int,
    ));
    r
}

/// The word at `i` as a string, or the empty string.
fn word_string(parts: &Vec<Vec<char>>, i: usize) -> (r: String)
    ensures
        r@ == word_or_empty(views(parts@), i as int),
{
    if parts.len() > i {
        text::chars_to_string(&parts[i])
    } else {
        text::chars_to_string(&Vec::new())
    }
}

/// The `i32` that `s` writes, or 0.
pub fn coordinate_of(s: &Vec<char>) -> (r: i32)
    ensures
        r == coordinate(s@),
{
    match text::parse_i32(s) {
        Some(v) => v,
        None => 0,
    }
}

/// Reads the options of a click from `parts[from..]`.
pub fn read_click_options(parts: &Vec<Vec<char>>, from: usize, with_window: bool) -> (r: (
    Vec<char>,
    MouseButton,
    bool,
))
    requires
        from <= parts.len(),
    ensures
        (r.0@, r.1, r.2) == click_options(views(parts@).skip(from as int), with_window),
{
    let mut w: Vec<char> = Vec::new();
    let mut b = MouseButton::Left;
    let mut d = false;
    let mut i = from;
    while i < parts.len()
        invariant
            from <= i <= parts.len(),
            (w@, b, d) == click_options(views(parts@).subrange(from as int, i as int), with_window),
        decreases parts.len() - i,
    {
        let ghost sub = views(parts@).subrange(from as int, i + 1);
        assert(sub.drop_last() =~= views(parts@).subrange(from as int, i as int));
        assert(sub.last() == parts@[i as int]@);
        let o = &parts[i];
        if text::chars_eq_str(o, "--right") {
            b = MouseButton::Right;
        } else if text::chars_eq_str(o, "--middle") {
            b = MouseButton::Middle;
        } else if text::chars_eq_str(o, "--double") {
            d = true;
        } else if with_window && !text::has_prefix_str(o, "--") {
            w = o.clone();
        }
        i = i + 1;
    }
    assert(views(parts@).subrange(from as int, parts.len() as int) =~= views(parts@).skip(
        from as int,
    ));
    (w, b, d)
}

/// The key and modifiers of a `mod+mod+key` combination.
fn key_combo(combo: &Vec<char>) -> (r: (String, Vec<String>))
    ensures
        r.0@ == split_on(combo@, '+').last(),
        text::string_views(r.1@) == split_on(combo@, '+').drop_last(),
{
    let kp = text::split_char(combo, '+');
    let last = kp.len() - 1;
    let key = text::chars_to_string(&kp[last]);
    let mut mods: Vec<String> = Vec::new();
    let mut i: usize = 0;
    while i < last
        invariant
            last == kp.len() - 1,
            i <= last,
            text::string_views(mods@) == views(kp@).take(i as int),
        decreases last - i,
    {
        let ghost before = mods@;
        mods.push(text::chars_to_string(&kp[i]));
        assert(text::string_views(mods@) =~= text::string_views(before).push(kp@[i as int]@));
        assert(views(kp@).take(i + 1) =~= views(kp@).take(i as int).push(kp@[i as int]@));
        i = i + 1;
    }
    assert(views(kp@).take(last as int) =~= views(kp@).drop_last());
    (key, mods)
}

/// The action that one line of a text sequence describes, if any.
pub fn parse_action_line(line: &Vec<char>) -> (r: Option<InputAction>)
    ensures
        r matches Some(a) ==> line_action(line@) == Some(a@),
        r is None ==> line_action(line@) is None,
{
    let t = text::trim_chars(line);
    let parts = text::split_whitespace(&t);
    if parts.len() == 0 {
        return None;
    }
    let kw = text::to_lowercase(&parts[0]);
    if text::chars_eq_str(&kw, "click") {
        if parts.len() < 3 {
            return None;
        }
        let x = coordinate_of(&parts[1]);
        let y = coordinate_of(&parts[2]);
        let (_w, button, double) = read_click_options(&parts, 3, false);
        Some(InputAction::Click { x, y, button, double })
    } else if text::chars_eq_str(&kw, "type") {
        let text = if parts.len() > 1 {
            text::chars_to_string(&text::join_from(&parts, 1, " "))
        } else {
            text::chars_to_string(&Vec::new())
        };
        Some(InputAction::Type { text })
    } else if text::chars_eq_str(&kw, "key") {
        if parts.len() < 2 {
            return None;
        }
        let (key, modifiers) = key_combo(&parts[1]);
        Some(InputAction::KeyPress { key, modifiers })
    } else if text::chars_eq_str(&kw, "wait") {
        let ms = if parts.len() > 1 {
            match text::parse_u64(&parts[1]) {
                Some(v) => v,
                None => 100,
            }
        } else {
            100
        };
        Some(InputAction::Wait { ms })
    } else {
        None
    }
}

/// The actions that the lines of `body` describe.
pub fn parse_text_actions(body: &Vec<char>) -> (r: Vec<InputAction>)
    ensures
        action_models(r@) == text_actions(lines(body@)),
{
    let ls = text::split_lines(body);
    let mut r: Vec<InputAction> = Vec::new();
    let mut i: usize = 0;
    while i < ls.len()
        invariant
            i <= ls.len(),
            views(ls@) == lines(body@),
            action_models(r@) == text_actions(views(ls@).take(i as int)),
        decreases ls.len() - i,
    {
        assert(views(ls@).take(i + 1).drop_last() =~= views(ls@).take(i as int));
        assert(views(ls@).take(i + 1).last() == ls@[i as int]@);
        let ghost before = r@;
        match parse_action_line(&ls[i]) {
            Some(a) => {
                r.push(a);
                assert(action_models(r@) =~= action_models(before).push(r@.last()@));
            },
            None => {},
        }
        i = i + 1;
    }
    assert(views(ls@).take(ls.len() as int) =~= views(ls@));
    r
}

/// The strings among the JSON values `vs`.
fn json_string_list(vs: &Vec<JsonValue>) -> (r: Vec<String>)
    ensures
        text::string_views(r@) == json_strings(vs@),
{
    let mut r: Vec<String> = Vec::new();
    let mut i: usize = 0;
    while i < vs.len()
        invariant
            i <= vs.len(),
            text::string_views(r@) == json_strings(vs@.take(i as int)),
        decreases vs.len() - i,
    {
        assert(vs@.take(i + 1).drop_last() =~= vs@.take(i as int));
        let ghost before = r@;
        match json::get_str(Some(&vs[i])) {
            Some(s) => {
                r.push(s.clone());
                assert(text::string_views(r@) =~= text::string_views(before).push(s@));
            },
            None => {},
        }
        i = i + 1;
    }
    assert(vs@.take(vs.len() as int) =~= vs@);
    r
}

/// The text of `v` as an owned string, or `dflt`.
fn str_or(v: Option<&JsonValue>, dflt: &str) -> (r: String)
    ensures
        r@ == match json::as_str(json::deref_opt(v)) {
            Some(s) => s,
            None => dflt@,
        },
{
    match json::get_str(v) {
        Some(s) => s.clone(),
        None => text::chars_to_string(&text::str_chars(dflt)),
    }
}

/// The action that one JSON value of a sequence describes, if any.
pub fn json_input_action(v: &JsonValue) -> (r: Option<InputAction>)
    ensures
        r matches Some(a) ==> json_action(*v) == Some(a@),
        r is None ==> json_action(*v) is None,
{
    proof {
        reveal_strlit("");
        assert(""@ =~= Seq::<char>::empty());
    }
    let t = match json::get_str(json::get_member(v, "type")) {
        Some(t) => text::str_chars(t.as_str()),
        None => {
            return None;
        },
    };
    if text::chars_eq_str(&t, "click") {
        let x = match json::get_i64(json::get_member(v, "x")) {
            Some(n) => #[verifier::truncate] (n as i32),
            None => 0,
        };
        let y = match json::get_i64(json::get_member(v, "y")) {
            Some(n) => #[verifier::truncate] (n as i32),
            None => 0,
        };
        let b = text::str_chars(str_or(json::get_member(v, "button"), "left").as_str());
        let button = if text::chars_eq_str(&b, "right") {
            MouseButton::Right
        } else if text::chars_eq_str(&b, "middle") {
            MouseButton::Middle
        } else {
            MouseButton::Left
        };
        let double = match json::get_bool(json::get_member(v, "double")) {
            Some(d) => d,
            None => false,
        };
        let r = InputAction::Click { x, y, button, double };
        assert(json_action(*v) == Some(r@));
        Some(r)
    } else if text::chars_eq_str(&t, "type") {
        let r = InputAction::Type { text: str_or(json::get_member(v, "text"), "") };
        assert(json_action(*v) == Some(r@));
        Some(r)
    } else if text::chars_eq_str(&t, "key") {
        let key = str_or(json::get_member(v, "key"), "");
        let modifiers = match json::get_array(json::get_member(v, "modifiers")) {
            Some(a) => json_string_list(a),
            None => text::no_strings(),
        };
        let r = InputAction::KeyPress { key, modifiers };
        assert(json_action(*v) == Some(r@));
        Some(r)
    } else if text::chars_eq_str(&t, "wait") {
        let ms = match json::get_u64(json::get_member(v, "ms")) {
            Some(n) => n,
            None => 100,
        };
        Some(InputAction::Wait { ms })
    } else {
        None
    }
}

/// The actions that the JSON values `vs` describe, in order.
pub fn json_input_actions(vs: &Vec<JsonValue>) -> (r: Vec<InputAction>)
    ensures
        action_models(r@) == json_actions(vs@),
{
    let mut r: Vec<InputAction> = Vec::new();
    let mut i: usize = 0;
    while i < vs.len()
        invariant
            i <= vs.len(),
            action_models(r@) == json_actions(vs@.take(i as int)),
        decreases vs.len() - i,
    {
        assert(vs@.take(i + 1).drop_last() =~= vs@.take(i as int));
        let ghost before = r@;
        match json_input_action(&vs[i]) {
            Some(a) => {
                r.push(a);
                assert(action_models(r@) =~= action_models(before).push(r@.last()@));
            },
            None => {},
        }
        i = i + 1;
    }
    assert(vs@.take(vs.len() as int) =~= vs@);
    r
}

/// The actions of a sequence body; JSON arrays are read where `json`.
pub fn sequence_actions(body: &str, json: bool) -> (r: Vec<InputAction>)
    ensures
        action_models(r@) == actions_of(body@, json),
{
    let b = text::str_chars(body);
    if json {
        let t = text::trim_chars(&b);
        if text::has_prefix_str(&t, "[") {
            return match json::parse_json_array(body) {
                Some(vs) => json_input_actions(&vs),
                None => Vec::new(),
            };
        }
    }
    parse_text_actions(&b)
}

/// Parses a sequence of actions, from a JSON array of action objects or
/// from text with one action per line.
pub fn parse_action_sequence(body: &str) -> (r: Vec<InputAction>)
    ensures
        action_models(r@) == actions_of(body@, true),
{
    sequence_actions(body, true)
}

/// Reads a command from the tool's arguments and body; sequence bodies are
/// read as JSON where `json`.
pub fn command_from(args: &str, body: &str, json: bool) -> (r: InputCommand)
    ensures
        r@ == command_of(args@, body@, json),
{
    let a = text::trim_chars(&text::str_chars(args));
    let parts = text::split_whitespace(&a);
    if parts.len() == 0 {
        return InputCommand::Type {
            text: text::chars_to_string(&Vec::new()),
            window_id: text::chars_to_string(&Vec::new()),
        };
    }
    let kw = text::to_lowercase(&parts[0]);
    if text::chars_eq_str(&kw, "click") {
        if parts.len() < 3 {
            return InputCommand::Click {
                x: 0,
                y: 0,
                window_id: text::chars_to_string(&Vec::new()),
                button: MouseButton::Left,
                double: false,
            };
        }
        let x = coordinate_of(&parts[1]);
        let y = coordinate_of(&parts[2]);
        let (w, button, double) = read_click_options(&parts, 3, true);
        InputCommand::Click { x, y, window_id: text::chars_to_string(&w), button, double }
    } else if text::chars_eq_str(&kw, "type") {
        let window_id = word_string(&parts, 1);
        let bv = text::str_chars(body);
        let text = if bv.len() == 0 {
            if parts.len() > 2 {
                text::chars_to_string(&text::join_from(&parts, 2, " "))
            } else {
                text::chars_to_string(&Vec::new())
            }
        } else {
            text::chars_to_string(&bv)
        };
        InputCommand::Type { text, window_id }
    } else if text::chars_eq_str(&kw, "key") {
        if parts.len() < 2 {
            return InputCommand::KeyPress {
                key: text::chars_to_string(&Vec::new()),
                modifiers: text::no_strings(),
                window_id: text::chars_to_string(&Vec::new()),
            };
        }
        let window_id = word_string(&parts, 2);
        let (key, modifiers) = key_combo(&parts[1]);
        proof {
            assert(text::string_views(modifiers@) == split_on(parts@[1]@, '+').drop_last());
        }
        InputCommand::KeyPress { key, modifiers, window_id }
    } else if text::chars_eq_str(&kw, "sequence") {
        let window_id = word_string(&parts, 1);
        let actions = sequence_actions(body, json);
        InputCommand::Sequence { actions, window_id }
    } else {
        InputCommand::Type {
            text: text::chars_to_string(&a),
            window_id: text::chars_to_string(&Vec::new()),
        }
    }
}

/// Parse command arguments and body into a structured command
pub fn parse_command(args: &str, body: &str) -> (r: InputCommand)
    ensures
        r@ == command_of(args@, body@, true),
{
    command_from(args, body, true)
}

} // verus!

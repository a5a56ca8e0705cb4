//! Actions that a side button performs: a key chord or a mouse click, written in a
//! short notation such as `forward`, `ctrl+c` or `ctrl + shift + t`, and the key
//! events that perform them.

use vstd::prelude::*;

use crate::text::{trim, trim_chars};

verus! {

/// A modifier key held around a key press.
#[derive(Clone, Copy, Debug, PartialEq, Eq, Structural)]
pub enum Modifier {
    Ctrl,
    Shift,
    Alt,
    Meta,
}

/// A mouse button that an action clicks.
#[derive(Clone, Copy, Debug, PartialEq, Eq, Structural)]
pub enum MouseButton {
    Left,
    Right,
    Middle,
    Back,
    Forward,
}

/// A key that an action presses.
#[derive(Clone, Copy, Debug, PartialEq, Eq, Structural)]
pub enum Key {
    A,
    B,
    C,
    D,
    E,
    F,
    G,
    H,
    I,
    J,
    K,
    L,
    M,
    N,
    O,
    P,
    Q,
    R,
    S,
    T,
    U,
    V,
    W,
    X,
    Y,
    Z,
    Num0,
    Num1,
    Num2,
    Num3,
    Num4,
    Num5,
    Num6,
    Num7,
    Num8,
    Num9,
    F1,
    F2,
    F3,
    F4,
    F5,
    F6,
    F7,
    F8,
    F9,
    F10,
    F11,
    F12,
    Enter,
    Space,
    Tab,
    Backspace,
    Escape,
    Delete,
    Insert,
    Home,
    End,
    PageUp,
    PageDown,
    Left,
    Right,
    Up,
    Down,
}

/// The modifier that `name` stands for in the action notation.
pub open spec fn modifier_named(name: Seq<char>) -> Option<Modifier> {
    if name == "ctrl"@ {
        Some(Modifier::Ctrl)
    }     else if name == "shift"@ {
        Some(Modifier::Shift)
    }     else if name == "alt"@ {
        Some(Modifier::Alt)
    }     else if name == "meta"@ {
        Some(Modifier::Meta)
    } else {
        None
    }
}

/// The key that `name` stands for in the action notation.
pub open spec fn key_named(name: Seq<char>) -> Option<Key> {
    if name == "a"@ {
        Some(Key::A)
    }     else if name == "b"@ {
        Some(Key::B)
    }     else if name == "c"@ {
        Some(Key::C)
    }     else if name == "d"@ {
        Some(Key::D)
    }     else if name == "e"@ {
        Some(Key::E)
    }     else if name == "f"@ {
        Some(Key::F)
    }     else if name == "g"@ {
        Some(Key::G)
    }     else if name == "h"@ {
        Some(Key::H)
    }     else if name == "i"@ {
        Some(Key::I)
    }     else if name == "j"@ {
        Some(Key::J)
    }     else if name == "k"@ {
        Some(Key::K)
    }     else if name == "l"@ {
        Some(Key::L)
    }     else if name == "m"@ {
        Some(Key::M)
    }     else if name == "n"@ {
        Some(Key::N)
    }     else if name == "o"@ {
        Some(Key::O)
    }     else if name == "p"@ {
        Some(Key::P)
    }     else if name == "q"@ {
        Some(Key::Q)
    }     else if name == "r"@ {
        Some(Key::R)
    }     else if name == "s"@ {
        Some(Key::S)
    }     else if name == "t"@ {
        Some(Key::T)
    }     else if name == "u"@ {
        Some(Key::U)
    }     else if name == "v"@ {
        Some(Key::V)
    }     else if name == "w"@ {
        Some(Key::W)
    }     else if name == "x"@ {
        Some(Key::X)
    }     else if name == "y"@ {
        Some(Key::Y)
    }     else if name == "z"@ {
        Some(Key::Z)
    }     else if name == "0"@ {
        Some(Key::Num0)
    }     else if name == "1"@ {
        Some(Key::Num1)
    }     else if name == "2"@ {
        Some(Key::Num2)
    }     else if name == "3"@ {
        Some(Key::Num3)
    }     else if name == "4"@ {
        Some(Key::Num4)
    }     else if name == "5"@ {
        Some(Key::Num5)
    }     else if name == "6"@ {
        Some(Key::Num6)
    }     else if name == "7"@ {
        Some(Key::Num7)
    }     else if name == "8"@ {
        Some(Key::Num8)
    }     else if name == "9"@ {
        Some(Key::Num9)
    }     else if name == "f1"@ {
        Some(Key::F1)
    }     else if name == "f2"@ {
        Some(Key::F2)
    }     else if name == "f3"@ {
        Some(Key::F3)
    }     else if name == "f4"@ {
        Some(Key::F4)
    }     else if name == "f5"@ {
        Some(Key::F5)
    }     else if name == "f6"@ {
        Some(Key::F6)
    }     else if name == "f7"@ {
        Some(Key::F7)
    }     else if name == "f8"@ {
        Some(Key::F8)
    }     else if name == "f9"@ {
        Some(Key::F9)
    }     else if name == "f10"@ {
        Some(Key::F10)
    }     else if name == "f11"@ {
        Some(Key::F11)
    }     else if name == "f12"@ {
        Some(Key::F12)
    }     else if name == "enter"@ {
        Some(Key::Enter)
    }     else if name == "space"@ {
        Some(Key::Space)
    }     else if name == "tab"@ {
        Some(Key::Tab)
    }     else if name == "backspace"@ {
        Some(Key::Backspace)
    }     else if name == "escape"@ {
        Some(Key::Escape)
    }     else if name == "delete"@ {
        Some(Key::Delete)
    }     else if name == "insert"@ {
        Some(Key::Insert)
    }     else if name == "home"@ {
        Some(Key::Home)
    }     else if name == "end"@ {
        Some(Key::End)
    }     else if name == "pageup"@ {
        Some(Key::PageUp)
    }     else if name == "pagedown"@ {
        Some(Key::PageDown)
    }     else if name == "left"@ {
        Some(Key::Left)
    }     else if name == "right"@ {
        Some(Key::Right)
    }     else if name == "up"@ {
        Some(Key::Up)
    }     else if name == "down"@ {
        Some(Key::Down)
    } else {
        None
    }
}

/// The mouse button that `name` stands for in the action notation.
pub open spec fn mouse_button_named(name: Seq<char>) -> Option<MouseButton> {
    if name == "left_click"@ {
        Some(MouseButton::Left)
    }     else if name == "right_click"@ {
        Some(MouseButton::Right)
    }     else if name == "middle_click"@ {
        Some(MouseButton::Middle)
    }     else if name == "back"@ {
        Some(MouseButton::Back)
    }     else if name == "forward"@ {
        Some(MouseButton::Forward)
    } else {
        None
    }
}

/// The Linux input event code of a modifier (its left-hand key).
pub open spec fn modifier_code(v: Modifier) -> u16 {
    match v {
        Modifier::Ctrl => 29,
        Modifier::Shift => 42,
        Modifier::Alt => 56,
        Modifier::Meta => 125,
    }
}

/// The Linux input event code of a key.
pub open spec fn key_code(v: Key) -> u16 {
    match v {
        Key::A => 30,
        Key::B => 48,
        Key::C => 46,
        Key::D => 32,
        Key::E => 18,
        Key::F => 33,
        Key::G => 34,
        Key::H => 35,
        Key::I => 23,
        Key::J => 36,
        Key::K => 37,
        Key::L => 38,
        Key::M => 50,
        Key::N => 49,
        Key::O => 24,
        Key::P => 25,
        Key::Q => 16,
        Key::R => 19,
        Key::S => 31,
        Key::T => 20,
        Key::U => 22,
        Key::V => 47,
        Key::W => 17,
        Key::X => 45,
        Key::Y => 21,
        Key::Z => 44,
        Key::Num0 => 11,
        Key::Num1 => 2,
        Key::Num2 => 3,
        Key::Num3 => 4,
        Key::Num4 => 5,
        Key::Num5 => 6,
        Key::Num6 => 7,
        Key::Num7 => 8,
        Key::Num8 => 9,
        Key::Num9 => 10,
        Key::F1 => 59,
        Key::F2 => 60,
        Key::F3 => 61,
        Key::F4 => 62,
        Key::F5 => 63,
        Key::F6 => 64,
        Key::F7 => 65,
        Key::F8 => 66,
        Key::F9 => 67,
        Key::F10 => 68,
        Key::F11 => 87,
        Key::F12 => 88,
        Key::Enter => 28,
        Key::Space => 57,
        Key::Tab => 15,
        Key::Backspace => 14,
        Key::Escape => 1,
        Key::Delete => 111,
        Key::Insert => 110,
        Key::Home => 102,
        Key::End => 107,
        Key::PageUp => 104,
        Key::PageDown => 109,
        Key::Left => 105,
        Key::Right => 106,
        Key::Up => 103,
        Key::Down => 108,
    }
}

/// The Linux input event code of a mouse button.
pub open spec fn mouse_button_code(v: MouseButton) -> u16 {
    match v {
        MouseButton::Left => 272,
        MouseButton::Right => 273,
        MouseButton::Middle => 274,
        MouseButton::Back => 275,
        MouseButton::Forward => 276,
    }
}

/// An action: keys held together (modifiers, then one key) or a mouse button.
#[derive(Debug, PartialEq, Eq)]
pub enum Action {
    Keys { modifiers: Vec<Modifier>, key: Key },
    Mouse(MouseButton),
}

/// An action as a value of the specification.
pub ghost enum ActionModel {
    Keys { modifiers: Seq<Modifier>, key: Key },
    Mouse(MouseButton),
}

impl View for Action {
    type V = ActionModel;

    open spec fn view(&self) -> ActionModel {
        match self {
            Action::Keys { modifiers, key } => ActionModel::Keys { modifiers: modifiers@, key: *key },
            Action::Mouse(b) => ActionModel::Mouse(*b),
        }
    }
}

impl Clone for Action {
    fn clone(&self) -> (r: Self)
        ensures
            r@ == self@,
    {
        match self {
            Action::Keys { modifiers, key } => {
                let mut copy: Vec<Modifier> = Vec::new();
                for i in 0..modifiers.len()
                    invariant
                        copy@ == modifiers@.take(i as int),
                {
                    copy.push(modifiers[i]);
                    assert(copy@ =~= modifiers@.take(i + 1));
                }
                assert(copy@ =~= modifiers@);
                Action::Keys { modifiers: copy, key: *key }
            },
            Action::Mouse(b) => Action::Mouse(*b),
        }
    }
}

/// A key event to send: an input event code and a value (1 down, 0 up).
#[derive(Clone, Copy, Debug, PartialEq, Eq, Structural)]
pub struct KeyEvent {
    pub code: u16,
    pub value: i32,
}

/// ASCII upper-case letters in lower case; other characters unchanged.
pub open spec fn ascii_lower(c: char) -> char {
    if 'A' <= c <= 'Z' {
        ((c as u32) + 32) as char
    } else {
        c
    }
}

/// The pieces of `s` between `+` signs (one piece when there is none).
pub open spec fn split_plus(s: Seq<char>) -> Seq<Seq<char>>
    decreases s.len(),
{
    if s.len() == 0 {
        seq![Seq::<char>::empty()]
    } else {
        let rest = split_plus(s.drop_last());
        if s.last() == '+' {
            rest.push(Seq::<char>::empty())
        } else {
            rest.update(rest.len() - 1, rest.last().push(s.last()))
        }
    }
}

/// The names in an action: the text in lower case, cut at `+`, each piece trimmed.
pub open spec fn action_names(text: Seq<char>) -> Seq<Seq<char>> {
    split_plus(text.map_values(|c: char| ascii_lower(c))).map_values(|p: Seq<char>| trim(p))
}

/// The modifiers that `names` stand for, or the first name that is no modifier.
pub open spec fn modifiers_named(names: Seq<Seq<char>>) -> Result<Seq<Modifier>, Seq<char>>
    decreases names.len(),
{
    if names.len() == 0 {
        Ok(Seq::<Modifier>::empty())
    } else {
        match modifier_named(names[0]) {
            None => Err(names[0]),
            Some(m) => match modifiers_named(names.drop_first()) {
                Ok(ms) => Ok(seq![m] + ms),
                Err(bad) => Err(bad),
            },
        }
    }
}

/// The action that `text` stands for: a single mouse button name, or modifier
/// names and a key name joined by `+`; otherwise the message that says which
/// name is unknown (modifiers are checked first, from the left).
pub open spec fn action_of(text: Seq<char>) -> Result<ActionModel, Seq<char>> {
    let names = action_names(text);
    if names.len() == 1 && mouse_button_named(names[0]) is Some {
        Ok(ActionModel::Mouse(mouse_button_named(names[0])->0))
    } else {
        match modifiers_named(names.drop_last()) {
            Err(bad) => Err("unknown modifier '"@ + bad + "'"@),
            Ok(mods) => match key_named(names.last()) {
                None => Err("unknown key '"@ + names.last() + "'"@),
                Some(k) => Ok(ActionModel::Keys { modifiers: mods, key: k }),
            },
        }
    }
}

/// The key events that perform `a` when its button goes down (`pressed`) or up:
/// modifiers go down before the key and come up after it, in reverse order.
pub open spec fn events_of(a: ActionModel, pressed: bool) -> Seq<KeyEvent> {
    match a {
        ActionModel::Keys { modifiers, key } => if pressed {
            modifiers.map_values(|m: Modifier| KeyEvent { code: modifier_code(m), value: 1 }).push(
                KeyEvent { code: key_code(key), value: 1 },
            )
        } else {
            seq![KeyEvent { code: key_code(key), value: 0 }] + modifiers.reverse().map_values(
                |m: Modifier| KeyEvent { code: modifier_code(m), value: 0 },
            )
        },
        ActionModel::Mouse(b) => seq![
            KeyEvent { code: mouse_button_code(b), value: if pressed { 1 } else { 0 } },
        ],
    }
}

fn lookup_modifier(name: &Vec<char>) -> (r: Option<Modifier>)
    ensures
        r == modifier_named(name@),
{
    if same_text(name, "ctrl") {
        Some(Modifier::Ctrl)
    }     else if same_text(name, "shift") {
        Some(Modifier::Shift)
    }     else if same_text(name, "alt") {
        Some(Modifier::Alt)
    }     else if same_text(name, "meta") {
        Some(Modifier::Meta)
    } else {
        None
    }
}

fn lookup_key(name: &Vec<char>) -> (r: Option<Key>)
    ensures
        r == key_named(name@),
{
    if same_text(name, "a") {
        Some(Key::A)
    }     else if same_text(name, "b") {
        Some(Key::B)
    }     else if same_text(name, "c") {
        Some(Key::C)
    }     else if same_text(name, "d") {
        Some(Key::D)
    }     else if same_text(name, "e") {
        Some(Key::E)
    }     else if same_text(name, "f") {
        Some(Key::F)
    }     else if same_text(name, "g") {
        Some(Key::G)
    }     else if same_text(name, "h") {
        Some(Key::H)
    }     else if same_text(name, "i") {
        Some(Key::I)
    }     else if same_text(name, "j") {
        Some(Key::J)
    }     else if same_text(name, "k") {
        Some(Key::K)
    }     else if same_text(name, "l") {
        Some(Key::L)
    }     else if same_text(name, "m") {
        Some(Key::M)
    }     else if same_text(name, "n") {
        Some(Key::N)
    }     else if same_text(name, "o") {
        Some(Key::O)
    }     else if same_text(name, "p") {
        Some(Key::P)
    }     else if same_text(name, "q") {
        Some(Key::Q)
    }     else if same_text(name, "r") {
        Some(Key::R)
    }     else if same_text(name, "s") {
        Some(Key::S)
    }     else if same_text(name, "t") {
        Some(Key::T)
    }     else if same_text(name, "u") {
        Some(Key::U)
    }     else if same_text(name, "v") {
        Some(Key::V)
    }     else if same_text(name, "w") {
        Some(Key::W)
    }     else if same_text(name, "x") {
        Some(Key::X)
    }     else if same_text(name, "y") {
        Some(Key::Y)
    }     else if same_text(name, "z") {
        Some(Key::Z)
    }     else if same_text(name, "0") {
        Some(Key::Num0)
    }     else if same_text(name, "1") {
        Some(Key::Num1)
    }     else if same_text(name, "2") {
        Some(Key::Num2)
    }     else if same_text(name, "3") {
        Some(Key::Num3)
    }     else if same_text(name, "4") {
        Some(Key::Num4)
    }     else if same_text(name, "5") {
        Some(Key::Num5)
    }     else if same_text(name, "6") {
        Some(Key::Num6)
    }     else if same_text(name, "7") {
        Some(Key::Num7)
    }     else if same_text(name, "8") {
        Some(Key::Num8)
    }     else if same_text(name, "9") {
        Some(Key::Num9)
    }     else if same_text(name, "f1") {
        Some(Key::F1)
    }     else if same_text(name, "f2") {
        Some(Key::F2)
    }     else if same_text(name, "f3") {
        Some(Key::F3)
    }     else if same_text(name, "f4") {
        Some(Key::F4)
    }     else if same_text(name, "f5") {
        Some(Key::F5)
    }     else if same_text(name, "f6") {
        Some(Key::F6)
    }     else if same_text(name, "f7") {
        Some(Key::F7)
    }     else if same_text(name, "f8") {
        Some(Key::F8)
    }     else if same_text(name, "f9") {
        Some(Key::F9)
    }     else if same_text(name, "f10") {
        Some(Key::F10)
    }     else if same_text(name, "f11") {
        Some(Key::F11)
    }     else if same_text(name, "f12") {
        Some(Key::F12)
    }     else if same_text(name, "enter") {
        Some(Key::Enter)
    }     else if same_text(name, "space") {
        Some(Key::Space)
    }     else if same_text(name, "tab") {
        Some(Key::Tab)
    }     else if same_text(name, "backspace") {
        Some(Key::Backspace)
    }     else if same_text(name, "escape") {
        Some(Key::Escape)
    }     else if same_text(name, "delete") {
        Some(Key::Delete)
    }     else if same_text(name, "insert") {
        Some(Key::Insert)
    }     else if same_text(name, "home") {
        Some(Key::Home)
    }     else if same_text(name, "end") {
        Some(Key::End)
    }     else if same_text(name, "pageup") {
        Some(Key::PageUp)
    }     else if same_text(name, "pagedown") {
        Some(Key::PageDown)
    }     else if same_text(name, "left") {
        Some(Key::Left)
    }     else if same_text(name, "right") {
        Some(Key::Right)
    }     else if same_text(name, "up") {
        Some(Key::Up)
    }     else if same_text(name, "down") {
        Some(Key::Down)
    } else {
        None
    }
}

fn lookup_mouse_button(name: &Vec<char>) -> (r: Option<MouseButton>)
    ensures
        r == mouse_button_named(name@),
{
    if same_text(name, "left_click") {
        Some(MouseButton::Left)
    }     else if same_text(name, "right_click") {
        Some(MouseButton::Right)
    }     else if same_text(name, "middle_click") {
        Some(MouseButton::Middle)
    }     else if same_text(name, "back") {
        Some(MouseButton::Back)
    }     else if same_text(name, "forward") {
        Some(MouseButton::Forward)
    } else {
        None
    }
}

fn modifier_code_of(v: Modifier) -> (r: u16)
    ensures
        r == modifier_code(v),
{
    match v {
        Modifier::Ctrl => 29,
        Modifier::Shift => 42,
        Modifier::Alt => 56,
        Modifier::Meta => 125,
    }
}

fn key_code_of(v: Key) -> (r: u16)
    ensures
        r == key_code(v),
{
    match v {
        Key::A => 30,
        Key::B => 48,
        Key::C => 46,
        Key::D => 32,
        Key::E => 18,
        Key::F => 33,
        Key::G => 34,
        Key::H => 35,
        Key::I => 23,
        Key::J => 36,
        Key::K => 37,
        Key::L => 38,
        Key::M => 50,
        Key::N => 49,
        Key::O => 24,
        Key::P => 25,
        Key::Q => 16,
        Key::R => 19,
        Key::S => 31,
        Key::T => 20,
        Key::U => 22,
        Key::V => 47,
        Key::W => 17,
        Key::X => 45,
        Key::Y => 21,
        Key::Z => 44,
        Key::Num0 => 11,
        Key::Num1 => 2,
        Key::Num2 => 3,
        Key::Num3 => 4,
        Key::Num4 => 5,
        Key::Num5 => 6,
        Key::Num6 => 7,
        Key::Num7 => 8,
        Key::Num8 => 9,
        Key::Num9 => 10,
        Key::F1 => 59,
        Key::F2 => 60,
        Key::F3 => 61,
        Key::F4 => 62,
        Key::F5 => 63,
        Key::F6 => 64,
        Key::F7 => 65,
        Key::F8 => 66,
        Key::F9 => 67,
        Key::F10 => 68,
        Key::F11 => 87,
        Key::F12 => 88,
        Key::Enter => 28,
        Key::Space => 57,
        Key::Tab => 15,
        Key::Backspace => 14,
        Key::Escape => 1,
        Key::Delete => 111,
        Key::Insert => 110,
        Key::Home => 102,
        Key::End => 107,
        Key::PageUp => 104,
        Key::PageDown => 109,
        Key::Left => 105,
        Key::Right => 106,
        Key::Up => 103,
        Key::Down => 108,
    }
}

fn mouse_button_code_of(v: MouseButton) -> (r: u16)
    ensures
        r == mouse_button_code(v),
{
    match v {
        MouseButton::Left => 272,
        MouseButton::Right => 273,
        MouseButton::Middle => 274,
        MouseButton::Back => 275,
        MouseButton::Forward => 276,
    }
}

fn same_text(name: &Vec<char>, lit: &str) -> (b: bool)
    ensures
        b == (name@ == lit@),
{
    let n = lit.unicode_len();
    if name.len() != n {
        return false;
    }
    for i in 0..n
        invariant
            n == lit@.len(),
            name@.len() == n,
            forall|j: int| 0 <= j < i ==> name@[j] == lit@[j],
    {
        if name[i] != lit.get_char(i) {
            return false;
        }
    }
    assert(name@ =~= lit@);
    true
}

fn lower(c: char) -> (r: char)
    ensures
        r == ascii_lower(c),
{
    if 'A' <= c && c <= 'Z' {
        ((c as u8) + 32) as char
    } else {
        c
    }
}

fn string_of(chars: &Vec<char>) -> (r: String)
    ensures
        r@ == chars@,
{
    let mut r = String::new();
    for i in 0..chars.len()
        invariant
            r@ == chars@.take(i as int),
    {
        r.push(chars[i]);
        assert(r@ =~= chars@.take(i + 1));
    }
    assert(chars@.take(chars@.len() as int) =~= chars@);
    r
}

fn quoted_message(lead: &str, name: &Vec<char>) -> (r: String)
    ensures
        r@ == lead@ + name@ + "'"@,
{
    let mut r = String::from_str(lead);
    let shown = string_of(name);
    r.append(shown.as_str());
    r.append("'");
    r
}

fn names_in(text: &str) -> (names: Vec<Vec<char>>)
    ensures
        names@.map_values(|v: Vec<char>| v@) == action_names(text@),
{
    let ghost low = text@.map_values(|c: char| ascii_lower(c));
    let n = text.unicode_len();
    let mut done: Vec<Vec<char>> = Vec::new();
    let mut cur: Vec<char> = Vec::new();
    assert(low.take(0) =~= Seq::<char>::empty());
    for i in 0..n
        invariant
            n == text@.len(),
            low == text@.map_values(|c: char| ascii_lower(c)),
            split_plus(low.take(i as int)) == done@.map_values(|v: Vec<char>| v@).push(cur@),
    {
        let c = lower(text.get_char(i));
        assert(low.take(i + 1).drop_last() =~= low.take(i as int));
        assert(low.take(i + 1).last() == c);
        let ghost before = done@.map_values(|v: Vec<char>| v@);
        if c == '+' {
            done.push(cur);
            cur = Vec::new();
            assert(done@.map_values(|v: Vec<char>| v@) =~= before.push(
                split_plus(low.take(i as int)).last(),
            ));
        } else {
            cur.push(c);
        }
        assert(split_plus(low.take(i + 1)) =~= done@.map_values(|v: Vec<char>| v@).push(cur@));
    }
    assert(low.take(n as int) =~= low);
    done.push(cur);
    let ghost pieces = done@.map_values(|v: Vec<char>| v@);
    assert(pieces == split_plus(low));
    let mut names: Vec<Vec<char>> = Vec::new();
    for k in 0..done.len()
        invariant
            pieces == done@.map_values(|v: Vec<char>| v@),
            names@.map_values(|v: Vec<char>| v@) == pieces.take(k as int).map_values(
                |p: Seq<char>| trim(p),
            ),
    {
        let t = trim_chars(&done[k]);
        let ghost prev = names@.map_values(|v: Vec<char>| v@);
        names.push(t);
        assert(names@.map_values(|v: Vec<char>| v@) =~= prev.push(t@));
        assert(pieces.take(k + 1).map_values(|p: Seq<char>| trim(p)) =~= pieces.take(
            k as int,
        ).map_values(|p: Seq<char>| trim(p)).push(trim(pieces[k as int])));
    }
    assert(pieces.take(done@.len() as int) =~= pieces);
    names
}

/// Reads an action written in the notation of `action_of`.
pub fn parse_action(text: &str) -> (r: Result<Action, String>)
    ensures
        match r {
            Ok(a) => action_of(text@) == Ok::<ActionModel, Seq<char>>(a@),
            Err(m) => action_of(text@) == Err::<ActionModel, Seq<char>>(m@),
        },
{
    let names = names_in(text);
    let ghost spec_names = names@.map_values(|v: Vec<char>| v@);
    assert(spec_names.len() >= 1) by {
        lemma_split_nonempty(text@.map_values(|c: char| ascii_lower(c)));
    }
    let count = names.len();
    if count == 1 {
        assert(spec_names[0] == names[0]@);
        match lookup_mouse_button(&names[0]) {
            Some(b) => {
                return Ok(Action::Mouse(b));
            },
            None => {},
        }
    }
    let last = count - 1;
    let mut mods: Vec<Modifier> = Vec::new();
    let ghost heads = spec_names.drop_last();
    assert(heads.skip(0) =~= heads);
    assert forall|ms: Seq<Modifier>| mods@ + ms == ms by {
        assert(mods@ + ms =~= ms);
    }
    assert(!(spec_names.len() == 1 && mouse_button_named(spec_names[0]) is Some));
    for i in 0..last
        invariant
            last == count - 1,
            count == names@.len(),
            spec_names == names@.map_values(|v: Vec<char>| v@),
            heads == spec_names.drop_last(),
            spec_names == action_names(text@),
            !(spec_names.len() == 1 && mouse_button_named(spec_names[0]) is Some),
            modifiers_named(heads) == match modifiers_named(heads.skip(i as int)) {
                Ok(ms) => Ok(mods@ + ms),
                Err(bad) => Err(bad),
            },
    {
        assert(heads.skip(i as int)[0] == names[i as int]@);
        assert(heads.skip(i as int).drop_first() =~= heads.skip(i + 1));
        match lookup_modifier(&names[i]) {
            None => {
                return Err(quoted_message("unknown modifier '", &names[i]));
            },
            Some(m) => {
                let ghost before = mods@;
                mods.push(m);
                assert forall|ms: Seq<Modifier>| before + (seq![m] + ms) == mods@ + ms by {
                    assert(before + (seq![m] + ms) =~= mods@ + ms);
                }
            },
        }
    }
    assert(heads.skip(last as int) =~= Seq::<Seq<char>>::empty());
    assert(mods@ + Seq::<Modifier>::empty() =~= mods@);
    assert(spec_names.last() == names[last as int]@);
    match lookup_key(&names[last]) {
        None => Err(quoted_message("unknown key '", &names[last])),
        Some(k) => Ok(Action::Keys { modifiers: mods, key: k }),
    }
}

proof fn lemma_split_nonempty(s: Seq<char>)
    ensures
        split_plus(s).len() >= 1,
    decreases s.len(),
{
    if s.len() > 0 {
        lemma_split_nonempty(s.drop_last());
    }
}

/// The key events that perform `action` when its button goes down or up.
pub fn action_events(action: &Action, pressed: bool) -> (r: Vec<KeyEvent>)
    ensures
        r@ == events_of(action@, pressed),
{
    match action {
        Action::Keys { modifiers, key } => {
            let code = key_code_of(*key);
            let mut events: Vec<KeyEvent> = Vec::new();
            if pressed {
                for i in 0..modifiers.len()
                    invariant
                        events@ == modifiers@.take(i as int).map_values(
                            |m: Modifier| KeyEvent { code: modifier_code(m), value: 1 },
                        ),
                {
                    events.push(KeyEvent { code: modifier_code_of(modifiers[i]), value: 1 });
                    assert(modifiers@.take(i + 1).map_values(
                        |m: Modifier| KeyEvent { code: modifier_code(m), value: 1 },
                    ) =~= events@);
                }
                assert(modifiers@.take(modifiers@.len() as int) =~= modifiers@);
                events.push(KeyEvent { code, value: 1 });
            } else {
                events.push(KeyEvent { code, value: 0 });
                let n = modifiers.len();
                let ghost rev = modifiers@.reverse().map_values(
                    |m: Modifier| KeyEvent { code: modifier_code(m), value: 0 },
                );
                for i in 0..n
                    invariant
                        n == modifiers@.len(),
                        rev == modifiers@.reverse().map_values(
                            |m: Modifier| KeyEvent { code: modifier_code(m), value: 0 },
                        ),
                        events@ == seq![KeyEvent { code, value: 0 }] + rev.take(i as int),
                {
                    events.push(KeyEvent { code: modifier_code_of(modifiers[n - 1 - i]), value: 0 });
                    assert(rev.take(i + 1) =~= rev.take(i as int).push(rev[i as int]));
                    assert(seq![KeyEvent { code, value: 0 }] + rev.take(i + 1) =~= events@);
                }
                assert(rev.take(n as int) =~= rev);
            }
            events
        },
        Action::Mouse(b) => {
            let value: i32 = if pressed { 1 } else { 0 };
            let mut events: Vec<KeyEvent> = Vec::new();
            events.push(KeyEvent { code: mouse_button_code_of(*b), value });
            events
        },
    }
}

} // verus!

use chimera_mapper::action::{action_events, Action, Key, KeyEvent, Modifier, MouseButton};
use chimera_mapper::backend::{BTN_EXTRA, BTN_LEFT, BTN_MIDDLE, BTN_RIGHT, BTN_SIDE, REL_X, REL_Y};
use evdev::{KeyCode, RelativeAxisCode};

fn code_of(action: Action) -> u16 {
    let events: Vec<KeyEvent> = action_events(&action, false);
    events[0].code
}

#[test]
fn key_codes_match_evdev() {
    let table = [
        (Key::A, KeyCode::KEY_A),
        (Key::B, KeyCode::KEY_B),
        (Key::C, KeyCode::KEY_C),
        (Key::D, KeyCode::KEY_D),
        (Key::E, KeyCode::KEY_E),
        (Key::F, KeyCode::KEY_F),
        (Key::G, KeyCode::KEY_G),
        (Key::H, KeyCode::KEY_H),
        (Key::I, KeyCode::KEY_I),
        (Key::J, KeyCode::KEY_J),
        (Key::K, KeyCode::KEY_K),
        (Key::L, KeyCode::KEY_L),
        (Key::M, KeyCode::KEY_M),
        (Key::N, KeyCode::KEY_N),
        (Key::O, KeyCode::KEY_O),
        (Key::P, KeyCode::KEY_P),
        (Key::Q, KeyCode::KEY_Q),
        (Key::R, KeyCode::KEY_R),
        (Key::S, KeyCode::KEY_S),
        (Key::T, KeyCode::KEY_T),
        (Key::U, KeyCode::KEY_U),
        (Key::V, KeyCode::KEY_V),
        (Key::W, KeyCode::KEY_W),
        (Key::X, KeyCode::KEY_X),
        (Key::Y, KeyCode::KEY_Y),
        (Key::Z, KeyCode::KEY_Z),
        (Key::Num0, KeyCode::KEY_0),
        (Key::Num1, KeyCode::KEY_1),
        (Key::Num2, KeyCode::KEY_2),
        (Key::Num3, KeyCode::KEY_3),
        (Key::Num4, KeyCode::KEY_4),
        (Key::Num5, KeyCode::KEY_5),
        (Key::Num6, KeyCode::KEY_6),
        (Key::Num7, KeyCode::KEY_7),
        (Key::Num8, KeyCode::KEY_8),
        (Key::Num9, KeyCode::KEY_9),
        (Key::F1, KeyCode::KEY_F1),
        (Key::F2, KeyCode::KEY_F2),
        (Key::F3, KeyCode::KEY_F3),
        (Key::F4, KeyCode::KEY_F4),
        (Key::F5, KeyCode::KEY_F5),
        (Key::F6, KeyCode::KEY_F6),
        (Key::F7, KeyCode::KEY_F7),
        (Key::F8, KeyCode::KEY_F8),
        (Key::F9, KeyCode::KEY_F9),
        (Key::F10, KeyCode::KEY_F10),
        (Key::F11, KeyCode::KEY_F11),
        (Key::F12, KeyCode::KEY_F12),
        (Key::Enter, KeyCode::KEY_ENTER),
        (Key::Space, KeyCode::KEY_SPACE),
        (Key::Tab, KeyCode::KEY_TAB),
        (Key::Backspace, KeyCode::KEY_BACKSPACE),
        (Key::Escape, KeyCode::KEY_ESC),
        (Key::Delete, KeyCode::KEY_DELETE),
        (Key::Insert, KeyCode::KEY_INSERT),
        (Key::Home, KeyCode::KEY_HOME),
        (Key::End, KeyCode::KEY_END),
        (Key::PageUp, KeyCode::KEY_PAGEUP),
        (Key::PageDown, KeyCode::KEY_PAGEDOWN),
        (Key::Left, KeyCode::KEY_LEFT),
        (Key::Right, KeyCode::KEY_RIGHT),
        (Key::Up, KeyCode::KEY_UP),
        (Key::Down, KeyCode::KEY_DOWN),
    ];
    for (key, code) in table {
        assert_eq!(code_of(Action::Keys { modifiers: vec![], key }), code.code(), "{key:?}");
    }
}

#[test]
fn modifier_codes_match_evdev() {
    let table = [
        (Modifier::Ctrl, KeyCode::KEY_LEFTCTRL),
        (Modifier::Shift, KeyCode::KEY_LEFTSHIFT),
        (Modifier::Alt, KeyCode::KEY_LEFTALT),
        (Modifier::Meta, KeyCode::KEY_LEFTMETA),
    ];
    for (m, code) in table {
        let events = action_events(&Action::Keys { modifiers: vec![m], key: Key::A }, true);
        assert_eq!(events[0].code, code.code(), "{m:?}");
    }
}

#[test]
fn button_and_axis_codes_match_evdev() {
    let table = [
        (MouseButton::Left, KeyCode::BTN_LEFT),
        (MouseButton::Right, KeyCode::BTN_RIGHT),
        (MouseButton::Middle, KeyCode::BTN_MIDDLE),
        (MouseButton::Back, KeyCode::BTN_SIDE),
        (MouseButton::Forward, KeyCode::BTN_EXTRA),
    ];
    for (b, code) in table {
        assert_eq!(code_of(Action::Mouse(b)), code.code(), "{b:?}");
    }
    assert_eq!(BTN_LEFT, KeyCode::BTN_LEFT.code());
    assert_eq!(BTN_RIGHT, KeyCode::BTN_RIGHT.code());
    assert_eq!(BTN_MIDDLE, KeyCode::BTN_MIDDLE.code());
    assert_eq!(BTN_SIDE, KeyCode::BTN_SIDE.code());
    assert_eq!(BTN_EXTRA, KeyCode::BTN_EXTRA.code());
    assert_eq!(REL_X, RelativeAxisCode::REL_X.0);
    assert_eq!(REL_Y, RelativeAxisCode::REL_Y.0);
}

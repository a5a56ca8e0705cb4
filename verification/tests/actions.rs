use chimera_mapper::action::{action_events, parse_action, Action, Key, KeyEvent, Modifier, MouseButton};
use chimera_mapper::config::{default_extra_action, default_side_action, MappingConfig};
use chimera_mapper::mapper::{ActionKind, Transition};

#[test]
fn default_actions_are_mouse_buttons() {
    assert_eq!(default_side_action(), "forward");
    assert_eq!(default_extra_action(), "back");
    assert_eq!(parse_action("forward"), Ok(Action::Mouse(MouseButton::Forward)));
    assert_eq!(parse_action("back"), Ok(Action::Mouse(MouseButton::Back)));
    assert_eq!(parse_action("Middle_Click"), Ok(Action::Mouse(MouseButton::Middle)));
}

#[test]
fn key_chords() {
    assert_eq!(
        parse_action("Ctrl+Shift+T"),
        Ok(Action::Keys { modifiers: vec![Modifier::Ctrl, Modifier::Shift], key: Key::T })
    );
    assert_eq!(
        parse_action(" alt + f4 "),
        Ok(Action::Keys { modifiers: vec![Modifier::Alt], key: Key::F4 })
    );
    assert_eq!(parse_action("pagedown"), Ok(Action::Keys { modifiers: vec![], key: Key::PageDown }));
    assert_eq!(parse_action("0"), Ok(Action::Keys { modifiers: vec![], key: Key::Num0 }));
    assert_eq!(parse_action("left"), Ok(Action::Keys { modifiers: vec![], key: Key::Left }));
}

#[test]
fn unknown_names_are_reported() {
    assert_eq!(parse_action("hyper+c"), Err("unknown modifier 'hyper'".to_string()));
    assert_eq!(parse_action("ctrl+foo"), Err("unknown key 'foo'".to_string()));
    assert_eq!(parse_action(""), Err("unknown key ''".to_string()));
    assert_eq!(parse_action("forward+a"), Err("unknown modifier 'forward'".to_string()));
    assert_eq!(parse_action("ctrl+"), Err("unknown key ''".to_string()));
}

#[test]
fn resolve_reads_both_actions() {
    let cfg = MappingConfig {
        button_byte: 1,
        side_mask: 0x10,
        extra_mask: 0x08,
        side_action: default_side_action(),
        extra_action: "ctrl+w".to_string(),
    };
    let m = cfg.resolve().unwrap();
    assert_eq!(m.button_byte, 1);
    assert_eq!(m.side_mask, 0x10);
    assert_eq!(m.extra_mask, 0x08);
    assert_eq!(m.side_action, Action::Mouse(MouseButton::Forward));
    assert_eq!(m.extra_action, Action::Keys { modifiers: vec![Modifier::Ctrl], key: Key::W });
    assert_eq!(
        m.transition_events(Transition { kind: ActionKind::Back, pressed: true }),
        vec![KeyEvent { code: 29, value: 1 }, KeyEvent { code: 17, value: 1 }]
    );
}

#[test]
fn resolve_reports_the_bad_setting() {
    let mut cfg = MappingConfig {
        button_byte: 1,
        side_mask: 0x10,
        extra_mask: 0x08,
        side_action: "nope".to_string(),
        extra_action: "bad+x".to_string(),
    };
    assert_eq!(cfg.resolve(), Err("invalid side_action 'nope': unknown key 'nope'".to_string()));
    cfg.side_action = "forward".to_string();
    assert_eq!(cfg.resolve(), Err("invalid extra_action 'bad+x': unknown modifier 'bad'".to_string()));
}

#[test]
fn key_events_wrap_the_key_in_its_modifiers() {
    let a = Action::Keys { modifiers: vec![Modifier::Ctrl, Modifier::Shift], key: Key::T };
    assert_eq!(
        action_events(&a, true),
        vec![
            KeyEvent { code: 29, value: 1 },
            KeyEvent { code: 42, value: 1 },
            KeyEvent { code: 20, value: 1 }
        ]
    );
    assert_eq!(
        action_events(&a, false),
        vec![
            KeyEvent { code: 20, value: 0 },
            KeyEvent { code: 42, value: 0 },
            KeyEvent { code: 29, value: 0 }
        ]
    );
    assert_eq!(
        action_events(&Action::Mouse(MouseButton::Forward), true),
        vec![KeyEvent { code: 0x114, value: 1 }]
    );
    assert_eq!(
        action_events(&Action::Mouse(MouseButton::Back), false),
        vec![KeyEvent { code: 0x113, value: 0 }]
    );
}

#[test]
fn cloned_actions_are_equal() {
    let a = Action::Keys { modifiers: vec![Modifier::Meta], key: Key::Escape };
    assert_eq!(a.clone(), a);
}

use chimera_mapper::config::{default_extra_action, default_side_action, MappingConfig};
use chimera_mapper::mapper::{ActionKind, MapperState, Transition};

fn cfg() -> MappingConfig {
    MappingConfig {
        button_byte: 1,
        side_mask: 0x10,
        extra_mask: 0x08,
        side_action: default_side_action(),
        extra_action: default_extra_action(),
    }
}

fn t(kind: ActionKind, pressed: bool) -> Transition {
    Transition { kind, pressed }
}

#[test]
fn presses_and_releases_are_reported_once() {
    let mut s = MapperState::default();
    assert_eq!(s.update(cfg(), &[0, 0x10, 0]), vec![t(ActionKind::Forward, true)]);
    assert_eq!(s.update(cfg(), &[0, 0x10, 0]), vec![]);
    assert_eq!(
        s.update(cfg(), &[0, 0x08]),
        vec![t(ActionKind::Forward, false), t(ActionKind::Back, true)]
    );
    assert_eq!(s.update(cfg(), &[0, 0x00]), vec![t(ActionKind::Back, false)]);
    assert_eq!(s, MapperState { prev_forward: false, prev_back: false });
}

#[test]
fn both_buttons_at_once_forward_first() {
    let mut s = MapperState::default();
    assert_eq!(
        s.update(cfg(), &[0, 0x18]),
        vec![t(ActionKind::Forward, true), t(ActionKind::Back, true)]
    );
    assert_eq!(s, MapperState { prev_forward: true, prev_back: true });
}

#[test]
fn short_reports_change_nothing() {
    let mut s = MapperState { prev_forward: true, prev_back: false };
    assert_eq!(s.update(cfg(), &[0x18]), vec![]);
    assert_eq!(s.update(cfg(), &[]), vec![]);
    assert_eq!(s, MapperState { prev_forward: true, prev_back: false });
}

#[test]
fn other_bits_are_ignored() {
    let mut s = MapperState::default();
    assert_eq!(s.update(cfg(), &[0xff, 0xe7]), vec![]);
}

#[test]
fn releases_cover_held_buttons_and_then_nothing() {
    let mut s = MapperState { prev_forward: true, prev_back: true };
    assert_eq!(
        s.synthesize_releases(),
        vec![t(ActionKind::Forward, false), t(ActionKind::Back, false)]
    );
    assert_eq!(s.synthesize_releases(), vec![]);
    let mut only_back = MapperState { prev_forward: false, prev_back: true };
    assert_eq!(only_back.synthesize_releases(), vec![t(ActionKind::Back, false)]);
}

#[test]
fn after_release_the_held_buttons_are_pressed_again() {
    let mut s = MapperState::default();
    s.update(cfg(), &[0, 0x10]);
    s.synthesize_releases();
    assert_eq!(s.update(cfg(), &[0, 0x10]), vec![t(ActionKind::Forward, true)]);
}

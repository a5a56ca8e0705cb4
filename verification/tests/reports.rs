use chimera_mapper::action::{Action, Key, Modifier, MouseButton};
use chimera_mapper::backend::{
    is_event_node_name, is_safe_to_grab, node_verdict, other_mouse_event, InputCapabilities, NodeVerdict,
    OtherMouseEvent,
};
use chimera_mapper::config::ResolvedMapping;
use chimera_mapper::mapper::{ActionKind, Transition};
use chimera_mapper::report::{any_bit_newly_pressed, dump_line, format_report, zero_unread_tail};
use chimera_mapper::service::{launchd_gui_target, launchd_plist, systemd_unit};

#[test]
fn reports_in_hex() {
    assert_eq!(format_report(&[]), "");
    assert_eq!(format_report(&[0x0a]), "0a");
    assert_eq!(format_report(&[0x00, 0x10, 0xff]), "00 10 ff");
}

#[test]
fn newly_pressed_bits() {
    assert!(!any_bit_newly_pressed(&[0x10, 0x08], &[0x10, 0x08]));
    assert!(!any_bit_newly_pressed(&[0x18], &[0x08]));
    assert!(any_bit_newly_pressed(&[0x08], &[0x18]));
    assert!(!any_bit_newly_pressed(&[0x00], &[0x00, 0xff]));
    assert!(!any_bit_newly_pressed(&[], &[0xff]));
}

#[test]
fn unread_tail_is_cleared() {
    let mut buf = vec![1, 2, 3, 4];
    zero_unread_tail(&mut buf, 2);
    assert_eq!(buf, vec![1, 2, 0, 0]);
    let mut full = vec![5, 6];
    zero_unread_tail(&mut full, 7);
    assert_eq!(full, vec![5, 6]);
}

fn mapping() -> ResolvedMapping {
    ResolvedMapping {
        button_byte: 1,
        side_mask: 0x10,
        extra_mask: 0x08,
        side_action: Action::Mouse(MouseButton::Forward),
        extra_action: Action::Keys { modifiers: vec![Modifier::Alt], key: Key::Left },
    }
}

#[test]
fn dump_lines() {
    assert_eq!(
        dump_line(&mapping(), &[0x01, 0x18, 0x00]),
        "report=[01 18 00] byte[1]=0x18 forward=true back=true"
    );
    assert_eq!(dump_line(&mapping(), &[0x01]), "report=[01] byte[1]=0x00 forward=false back=false");
    assert_eq!(mapping().clone(), mapping());
}

#[test]
fn event_nodes() {
    assert!(is_event_node_name("event12"));
    assert!(is_event_node_name("event"));
    assert!(!is_event_node_name("mouse0"));
    assert!(!is_event_node_name("even"));
}

#[test]
fn grab_only_isolated_side_button_nodes() {
    let side_only = InputCapabilities { keys: Some(vec![0x113, 0x114]), relative_axes: None };
    assert!(is_safe_to_grab(&side_only));
    let with_click = InputCapabilities { keys: Some(vec![0x110, 0x113]), relative_axes: None };
    assert!(!is_safe_to_grab(&with_click));
    let with_middle = InputCapabilities { keys: Some(vec![0x112, 0x114]), relative_axes: None };
    assert!(!is_safe_to_grab(&with_middle));
    let moving = InputCapabilities { keys: Some(vec![0x113]), relative_axes: Some(vec![0x08, 0x01]) };
    assert!(!is_safe_to_grab(&moving));
    let wheel_only = InputCapabilities { keys: Some(vec![0x113]), relative_axes: Some(vec![0x08]) };
    assert!(is_safe_to_grab(&wheel_only));
    let no_keys = InputCapabilities { keys: None, relative_axes: None };
    assert!(!is_safe_to_grab(&no_keys));
}

#[test]
fn macos_buttons() {
    assert_eq!(
        other_mouse_event(Transition { kind: ActionKind::Forward, pressed: true }),
        OtherMouseEvent { down: true, button_number: 4 }
    );
    assert_eq!(
        other_mouse_event(Transition { kind: ActionKind::Back, pressed: false }),
        OtherMouseEvent { down: false, button_number: 3 }
    );
}

#[test]
fn service_files() {
    assert_eq!(
        systemd_unit("/usr/bin/chimera-mapper"),
        "[Unit]\nDescription=Chimera Mapper HID daemon\n\n[Service]\nExecStart=/usr/bin/chimera-mapper run\nRestart=on-failure\n\n[Install]\nWantedBy=default.target\n"
    );
    let plist = launchd_plist("/bin/cm", "/o.log", "/e.log");
    assert!(plist.starts_with("<?xml version=\"1.0\" encoding=\"UTF-8\"?>\n"));
    assert!(plist.contains("        <string>/bin/cm</string>\n        <string>run</string>\n"));
    assert!(plist.contains("<key>StandardOutPath</key>\n    <string>/o.log</string>"));
    assert!(plist.contains("<key>StandardErrorPath</key>\n    <string>/e.log</string>\n</dict>\n</plist>\n"));
    assert_eq!(launchd_gui_target("501\n"), Some("gui/501".to_string()));
    assert_eq!(launchd_gui_target("  \n"), None);
}

#[test]
fn node_verdicts() {
    let side_only = InputCapabilities { keys: Some(vec![0x113, 0x114]), relative_axes: None };
    let pointer = InputCapabilities { keys: Some(vec![0x110, 0x113]), relative_axes: Some(vec![0, 1]) };
    assert_eq!(node_verdict(0x248a, 0x5b4a, 0x248a, 0x5b4a, &side_only), NodeVerdict::Grab);
    assert_eq!(node_verdict(0x248a, 0x5b4a, 0x248a, 0x5b4a, &pointer), NodeVerdict::Unsafe);
    assert_eq!(node_verdict(0x248a, 0x5b4a, 0x248a, 0x5b49, &side_only), NodeVerdict::OtherDevice);
    assert_eq!(node_verdict(0x248a, 0x5b4a, 0x1234, 0x5b4a, &side_only), NodeVerdict::OtherDevice);
}

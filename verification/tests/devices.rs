use chimera_mapper::args::{
    apply_saved_profile, plan_run_args, RunArgsPlan, default_run_args, has_explicit_device_selector, mapping_from_args,
    saved_profile_from_args, RunArgs,
};
use chimera_mapper::autodetect::{
    args_for_device, choose_candidate, device_path_present, needs_confirmation, observe_candidate, plausible_count,
    should_switch_to_wired, sort_candidates, AutodetectCandidate,
};
use chimera_mapper::config::{AppConfig, MappingConfig, SavedProfile};
use chimera_mapper::device::{
    autodetect_score, candidate_haystack, format_device, format_match, format_selected,
    matches_filters, select_device,
    DeviceDescriptor, DeviceSelection,
};

fn device(path: &str, vid: u16, pid: u16) -> DeviceDescriptor {
    DeviceDescriptor {
        path: path.to_string(),
        vendor_id: vid,
        product_id: pid,
        serial_number: None,
        usage_page: 0x000c,
        usage: 0x0001,
        interface_number: 1,
        product_string: None,
        manufacturer_string: None,
    }
}

fn chimera() -> DeviceDescriptor {
    DeviceDescriptor {
        path: "/dev/hidraw3".to_string(),
        vendor_id: 0x248a,
        product_id: 0x5b4a,
        serial_number: Some("SN1".to_string()),
        usage_page: 0x0001,
        usage: 0x0002,
        interface_number: 0,
        product_string: Some("Kreo Chimera V1".to_string()),
        manufacturer_string: Some("Kreo Gaming Mouse".to_string()),
    }
}

#[test]
fn device_lines() {
    assert_eq!(
        format_device(&chimera()),
        "path=/dev/hidraw3 vid=0x248a pid=0x5b4a usage_page=0x0001 usage=0x0002 iface=0 product=Kreo Chimera V1 manufacturer=Kreo Gaming Mouse serial=SN1"
    );
    let mut d = device("p", 0x1, 0xabc);
    d.interface_number = -1;
    assert_eq!(
        format_device(&d),
        "path=p vid=0x0001 pid=0x0abc usage_page=0x000c usage=0x0001 iface=-1 product=- manufacturer=- serial=-"
    );
}

#[test]
fn haystack_and_score() {
    assert_eq!(
        candidate_haystack(&chimera()),
        "/dev/hidraw3 kreo chimera v1 kreo gaming mouse sn1"
    );
    assert_eq!(autodetect_score(&chimera()), Some(10_000 + 500 + 200 + 200 + 100));
    assert_eq!(autodetect_score(&device("/dev/input/event4", 1, 2)), Some(25));
    assert_eq!(autodetect_score(&device("/dev/hidraw0", 1, 2)), None);
    let mut only_product = device("x", 1, 2);
    only_product.product_string = Some("USB MOUSE".to_string());
    assert_eq!(candidate_haystack(&only_product), "x usb mouse ");
    assert_eq!(autodetect_score(&only_product), Some(500));
}

fn args() -> RunArgs {
    default_run_args()
}

#[test]
fn defaults() {
    let a = args();
    assert_eq!(a.report_len, 64);
    assert_eq!(a.button_byte, 1);
    assert_eq!(a.side_mask, 0x10);
    assert_eq!(a.extra_mask, 0x08);
    assert_eq!(a.timeout_ms, 250);
    assert_eq!(a.name, "chimera-mapper");
    assert!(!has_explicit_device_selector(&a));
    let m = mapping_from_args(&a);
    assert_eq!(m.side_action, "forward");
    assert_eq!(m.extra_action, "back");
    assert_eq!(AppConfig::default(), AppConfig { profile: None });
}

#[test]
fn filters() {
    let mut a = args();
    a.vid = Some(0x248a);
    assert!(matches_filters(&chimera(), &a));
    a.serial = Some("SN2".to_string());
    assert!(!matches_filters(&chimera(), &a));
    a.serial = Some("SN1".to_string());
    assert!(matches_filters(&chimera(), &a));
    a.serial = Some("SN1".to_string());
    assert!(!matches_filters(&device("p", 0x248a, 1), &a));
    a.serial = None;
    a.interface_number = Some(1);
    assert!(!matches_filters(&chimera(), &a));
}

#[test]
fn selection() {
    let devs = vec![device("a", 1, 2), device("b", 1, 2), device("c", 1, 3), device("b", 5, 5)];
    let mut a = args();
    assert_eq!(select_device(&devs, &a), DeviceSelection::MissingSelector);
    a.path = Some("b".to_string());
    assert_eq!(select_device(&devs, &a), DeviceSelection::ByPath(1));
    a.path = Some("gone".to_string());
    a.vid = Some(1);
    a.pid = Some(2);
    assert_eq!(select_device(&devs, &a), DeviceSelection::Ambiguous(vec![0, 1]));
    a.pid = Some(3);
    assert_eq!(select_device(&devs, &a), DeviceSelection::Unique(2));
    a.pid = Some(2);
    a.path = None;
    assert_eq!(select_device(&devs, &a), DeviceSelection::Ambiguous(vec![0, 1]));
    a.pid = Some(3);
    assert_eq!(select_device(&devs, &a), DeviceSelection::Unique(2));
    a.pid = Some(9);
    assert_eq!(select_device(&devs, &a), DeviceSelection::NoMatch);
    a.pid = None;
    assert_eq!(select_device(&devs, &a), DeviceSelection::MissingSelector);
}

fn cand(score: i32, path: &str) -> AutodetectCandidate {
    AutodetectCandidate { score, device: device(path, 1, 1), last_report: vec![0, 0] }
}

#[test]
fn ranking_is_stable_and_descending() {
    let sorted = sort_candidates(vec![cand(25, "a"), cand(500, "b"), cand(25, "c"), cand(900, "d"), cand(500, "e")]);
    let order: Vec<(i32, String)> = sorted.iter().map(|c| (c.score, c.device.path.clone())).collect();
    assert_eq!(
        order,
        vec![
            (900, "d".to_string()),
            (500, "b".to_string()),
            (500, "e".to_string()),
            (25, "a".to_string()),
            (25, "c".to_string())
        ]
    );
    assert_eq!(sort_candidates(vec![]), vec![]);
}

#[test]
fn plausible_candidates() {
    assert_eq!(plausible_count(&vec![]), None);
    assert_eq!(plausible_count(&vec![cand(10_500, "a")]), Some(1));
    assert_eq!(
        plausible_count(&vec![cand(10_500, "a"), cand(10_300, "b"), cand(10_299, "c")]),
        Some(2)
    );
}

#[test]
fn observing_candidates() {
    let mut c = cand(1, "a");
    c.last_report = vec![0x00, 0x10];
    assert!(!observe_candidate(&mut c, vec![0x00, 0x10]));
    assert_eq!(c.last_report, vec![0x00, 0x10]);
    assert!(!observe_candidate(&mut c, vec![0x00, 0x00]));
    assert_eq!(c.last_report, vec![0x00, 0x00]);
    assert!(observe_candidate(&mut c, vec![0x00, 0x08]));
    assert_eq!(c.last_report, vec![0x00, 0x00]);
}

#[test]
fn autodetected_device_is_pinned() {
    let a = args_for_device(&args(), &chimera());
    assert_eq!(a.path, Some("/dev/hidraw3".to_string()));
    assert_eq!(a.vid, Some(0x248a));
    assert_eq!(a.pid, Some(0x5b4a));
    assert_eq!(a.serial, Some("SN1".to_string()));
    assert_eq!(a.usage_page, Some(1));
    assert_eq!(a.usage, Some(2));
    assert_eq!(a.interface_number, Some(0));
    assert_eq!(a.report_len, 64);
    assert!(has_explicit_device_selector(&a));
}

#[test]
fn saved_profiles_round_trip() {
    let a = args_for_device(&args(), &chimera());
    let p = saved_profile_from_args(&a).unwrap();
    assert_eq!(p.path, "/dev/hidraw3");
    assert_eq!(p.mapping.button_byte, 1);
    assert_eq!(p.mapping.side_action, "forward");
    let back = apply_saved_profile(&args(), &p);
    assert_eq!(saved_profile_from_args(&back), Some(p.clone()));
    let mut partial = args();
    partial.path = Some("x".to_string());
    partial.vid = Some(1);
    assert_eq!(saved_profile_from_args(&partial), None);
}

#[test]
fn applying_a_profile_sets_the_decoding() {
    let p = SavedProfile {
        path: "/dev/hidraw9".to_string(),
        vid: 1,
        pid: 2,
        serial: None,
        usage_page: 3,
        usage: 4,
        interface_number: 5,
        mapping: MappingConfig {
            button_byte: 2,
            side_mask: 0x01,
            extra_mask: 0x02,
            side_action: "forward".to_string(),
            extra_action: "back".to_string(),
        },
    };
    let mut base = args();
    base.serial = Some("old".to_string());
    let r = apply_saved_profile(&base, &p);
    assert_eq!(r.serial, None);
    assert_eq!(r.button_byte, 2);
    assert_eq!(r.side_mask, 1);
    assert_eq!(r.extra_mask, 2);
    assert_eq!(r.interface_number, Some(5));
    assert_eq!(r.timeout_ms, 250);
}

#[test]
fn following_the_device() {
    let devs = vec![device("a", 0x248a, 0x5b4a), device("b", 1, 1)];
    assert!(device_path_present(&devs, &Some("b".to_string())));
    assert!(!device_path_present(&devs, &Some("c".to_string())));
    assert!(device_path_present(&devs, &None));
    let mut a = args();
    a.vid = Some(0x248a);
    a.pid = Some(0x5b4a);
    assert!(!should_switch_to_wired(&a, &devs));
    let with_cable = vec![device("a", 0x248a, 0x5b4a), device("w", 0x248a, 0x5b49)];
    assert!(should_switch_to_wired(&a, &with_cable));
    a.pid = Some(0x5b49);
    assert!(!should_switch_to_wired(&a, &with_cable));
}

#[test]
fn selection_messages() {
    assert_eq!(
        format_match(&chimera()),
        "  path=/dev/hidraw3 vid=0x248a pid=0x5b4a usage_page=0x0001 usage=0x0002 iface=0 product=Kreo Chimera V1 serial=SN1"
    );
    assert_eq!(
        format_selected(&device("q", 0xffff, 0)),
        "auto-selected device: product=- vid=0xffff pid=0x0000 usage_page=0x000c usage=0x0001 iface=1"
    );
}

#[test]
fn stale_path_falls_back_to_ids() {
    let devs = vec![device("/dev/hidraw12", 0x248a, 0x5b49)];
    let mut a = args();
    a.path = Some("/dev/hidraw3".to_string());
    a.vid = Some(0x248a);
    a.pid = Some(0x5b49);
    assert_eq!(select_device(&devs, &a), DeviceSelection::Unique(0));
    a.interface_number = Some(3);
    assert_eq!(select_device(&devs, &a), DeviceSelection::NoMatch);
}

#[test]
fn ranking_keeps_order_within_a_score() {
    let sorted = sort_candidates(vec![cand(7, "x"), cand(7, "y"), cand(9, "z"), cand(7, "w")]);
    let sevens: Vec<String> = sorted.iter().filter(|c| c.score == 7).map(|c| c.device.path.clone()).collect();
    assert_eq!(sevens, vec!["x".to_string(), "y".to_string(), "w".to_string()]);
}

#[test]
fn choosing_among_candidates() {
    assert!(!needs_confirmation(1));
    assert!(needs_confirmation(2));
    assert_eq!(choose_candidate(1, Some(3)), 0);
    assert_eq!(choose_candidate(3, Some(2)), 2);
    assert_eq!(choose_candidate(3, None), 0);
}

#[test]
fn where_the_settings_come_from() {
    let profile = saved_profile_from_args(&args_for_device(&args(), &chimera())).unwrap();
    let mut given = args();
    given.vid = Some(1);
    assert_eq!(plan_run_args(&given, &Some(profile.clone())), RunArgsPlan::Given);
    assert_eq!(
        plan_run_args(&args(), &Some(profile.clone())),
        RunArgsPlan::TrySaved(apply_saved_profile(&args(), &profile))
    );
    assert_eq!(plan_run_args(&args(), &None), RunArgsPlan::Detect);
}

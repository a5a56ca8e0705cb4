use chimera_mapper::monitor::{LinkEvent, LinkMonitor, LinkStep, ReconnectReason};

#[test]
fn refresh_is_due_after_two_seconds() {
    let m = LinkMonitor::start(1000);
    assert!(!m.refresh_due(3000));
    assert!(m.refresh_due(3001));
    assert!(!m.refresh_due(500));
}

#[test]
fn refresh_outcomes() {
    let mut m = LinkMonitor::start(0);
    assert_eq!(
        m.step(LinkEvent::Refreshed { now_ms: 2500, wired_takes_over: false, present: true }),
        LinkStep::Continue
    );
    assert_eq!(m.last_refresh_ms, 2500);
    assert_eq!(
        m.step(LinkEvent::Refreshed { now_ms: 5000, wired_takes_over: true, present: true }),
        LinkStep::Reconnect { reason: ReconnectReason::WiredAvailable, pause_ms: 0 }
    );
    assert_eq!(
        m.step(LinkEvent::Refreshed { now_ms: 7500, wired_takes_over: false, present: false }),
        LinkStep::Reconnect { reason: ReconnectReason::DeviceGone, pause_ms: 500 }
    );
}

#[test]
fn silence_leads_to_a_presence_check() {
    let mut m = LinkMonitor::start(0);
    assert_eq!(m.step(LinkEvent::Quiet { now_ms: 100 }), LinkStep::Continue);
    assert_eq!(m.silent_since_ms, Some(100));
    assert_eq!(m.step(LinkEvent::Quiet { now_ms: 5100 }), LinkStep::Continue);
    assert_eq!(m.step(LinkEvent::Quiet { now_ms: 5101 }), LinkStep::CheckPresence);
    assert_eq!(m.step(LinkEvent::Rechecked { present: true }), LinkStep::Continue);
    assert_eq!(m.silent_since_ms, None);
    m.step(LinkEvent::Quiet { now_ms: 6000 });
    assert_eq!(m.step(LinkEvent::Quiet { now_ms: 12000 }), LinkStep::CheckPresence);
    assert_eq!(
        m.step(LinkEvent::Rechecked { present: false }),
        LinkStep::Reconnect { reason: ReconnectReason::SilentAndGone, pause_ms: 500 }
    );
}

#[test]
fn data_resets_silence_and_failures_reconnect() {
    let mut m = LinkMonitor::start(0);
    m.step(LinkEvent::Quiet { now_ms: 10 });
    assert_eq!(m.step(LinkEvent::Data), LinkStep::Continue);
    assert_eq!(m.silent_since_ms, None);
    assert_eq!(
        m.step(LinkEvent::Failed),
        LinkStep::Reconnect { reason: ReconnectReason::ReadFailed, pause_ms: 500 }
    );
}

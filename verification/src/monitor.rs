//! The watch kept on a connected device while reports are read: when to look at
//! the device list again, and when to give the device up and reconnect.

use vstd::prelude::*;

verus! {

/// How often the device list is looked at while reading, in milliseconds.
pub const REFRESH_INTERVAL_MS: u64 = 2000;

/// How long a device may send nothing before its presence is checked.
pub const SILENT_RECONNECT_AFTER_MS: u64 = 5000;

/// How long to wait before reconnecting to a device that went away.
pub const RECONNECT_PAUSE_MS: u64 = 500;

/// When the device list was last looked at, and since when the device is silent.
#[derive(Clone, Copy, Debug, PartialEq, Eq, Structural)]
pub struct LinkMonitor {
    pub last_refresh_ms: u64,
    pub silent_since_ms: Option<u64>,
}

/// What happened while reading from the device.
#[derive(Clone, Copy, Debug, PartialEq, Eq, Structural)]
pub enum LinkEvent {
    /// The device list was looked at on schedule at `now_ms`: whether the mouse is
    /// now on its cable while its receiver is in use, and whether the device in
    /// use is still listed.
    Refreshed { now_ms: u64, wired_takes_over: bool, present: bool },
    /// A read at `now_ms` returned no data.
    Quiet { now_ms: u64 },
    /// A read returned data.
    Data,
    /// A read failed.
    Failed,
    /// After a long silence the device list was looked at again: whether the
    /// device in use is still listed.
    Rechecked { present: bool },
}

/// Why the device is given up.
#[derive(Clone, Copy, Debug, PartialEq, Eq, Structural)]
pub enum ReconnectReason {
    WiredAvailable,
    DeviceGone,
    SilentAndGone,
    ReadFailed,
}

/// What to do next.
#[derive(Clone, Copy, Debug, PartialEq, Eq, Structural)]
pub enum LinkStep {
    /// Go on reading.
    Continue,
    /// The device has been silent too long: look at the device list and report
    /// `Rechecked`.
    CheckPresence,
    /// Release the held buttons, wait `pause_ms`, and connect again.
    Reconnect { reason: ReconnectReason, pause_ms: u64 },
}

/// A fresh watch, started at `now_ms`.
pub open spec fn started(now_ms: u64) -> LinkMonitor {
    LinkMonitor { last_refresh_ms: now_ms, silent_since_ms: None }
}

/// Whether the device list is due to be looked at again at `now_ms`.
pub open spec fn refresh_is_due(m: LinkMonitor, now_ms: u64) -> bool {
    now_ms > m.last_refresh_ms && now_ms - m.last_refresh_ms > REFRESH_INTERVAL_MS
}

/// The watch after an event, and what to do next.
pub open spec fn link_step(m: LinkMonitor, e: LinkEvent) -> (LinkMonitor, LinkStep) {
    match e {
        LinkEvent::Refreshed { now_ms, wired_takes_over, present } => {
            let next = LinkMonitor { last_refresh_ms: now_ms, ..m };
            if wired_takes_over {
                (next, LinkStep::Reconnect { reason: ReconnectReason::WiredAvailable, pause_ms: 0 })
            } else if !present {
                (
                    next,
                    LinkStep::Reconnect {
                        reason: ReconnectReason::DeviceGone,
                        pause_ms: RECONNECT_PAUSE_MS,
                    },
                )
            } else {
                (next, LinkStep::Continue)
            }
        },
        LinkEvent::Quiet { now_ms } => match m.silent_since_ms {
            None => (LinkMonitor { silent_since_ms: Some(now_ms), ..m }, LinkStep::Continue),
            Some(start) => if now_ms > start && now_ms - start > SILENT_RECONNECT_AFTER_MS {
                (m, LinkStep::CheckPresence)
            } else {
                (m, LinkStep::Continue)
            },
        },
        LinkEvent::Data => (LinkMonitor { silent_since_ms: None, ..m }, LinkStep::Continue),
        LinkEvent::Failed => (
            m,
            LinkStep::Reconnect { reason: ReconnectReason::ReadFailed, pause_ms: RECONNECT_PAUSE_MS },
        ),
        LinkEvent::Rechecked { present } => if present {
            (LinkMonitor { silent_since_ms: None, ..m }, LinkStep::Continue)
        } else {
            (
                m,
                LinkStep::Reconnect {
                    reason: ReconnectReason::SilentAndGone,
                    pause_ms: RECONNECT_PAUSE_MS,
                },
            )
        },
    }
}

impl LinkMonitor {
    /// Starts watching a newly connected device at `now_ms`.
    pub fn start(now_ms: u64) -> (r: LinkMonitor)
        ensures
            r == started(now_ms),
    {
        LinkMonitor { last_refresh_ms: now_ms, silent_since_ms: None }
    }

    /// Whether the device list is due to be looked at again.
    pub fn refresh_due(&self, now_ms: u64) -> (r: bool)
        ensures
            r == refresh_is_due(*self, now_ms),
    {
        now_ms > self.last_refresh_ms && now_ms - self.last_refresh_ms > REFRESH_INTERVAL_MS
    }

    /// Takes in what happened and says what to do next.
    pub fn step(&mut self, event: LinkEvent) -> (r: LinkStep)
        ensures
            (*final(self), r) == link_step(*old(self), event),
    {
        match event {
            LinkEvent::Refreshed { now_ms, wired_takes_over, present } => {
                self.last_refresh_ms = now_ms;
                if wired_takes_over {
                    LinkStep::Reconnect { reason: ReconnectReason::WiredAvailable, pause_ms: 0 }
                } else if !present {
                    LinkStep::Reconnect {
                        reason: ReconnectReason::DeviceGone,
                        pause_ms: RECONNECT_PAUSE_MS,
                    }
                } else {
                    LinkStep::Continue
                }
            },
            LinkEvent::Quiet { now_ms } => match self.silent_since_ms {
                None => {
                    self.silent_since_ms = Some(now_ms);
                    LinkStep::Continue
                },
                Some(start) => {
                    if now_ms > start && now_ms - start > SILENT_RECONNECT_AFTER_MS {
                        LinkStep::CheckPresence
                    } else {
                        LinkStep::Continue
                    }
                },
            },
            LinkEvent::Data => {
                self.silent_since_ms = None;
                LinkStep::Continue
            },
            LinkEvent::Failed => LinkStep::Reconnect {
                reason: ReconnectReason::ReadFailed,
                pause_ms: RECONNECT_PAUSE_MS,
            },
            LinkEvent::Rechecked { present } => {
                if present {
                    self.silent_since_ms = None;
                    LinkStep::Continue
                } else {
                    LinkStep::Reconnect {
                        reason: ReconnectReason::SilentAndGone,
                        pause_ms: RECONNECT_PAUSE_MS,
                    }
                }
            },
        }
    }
}

/// A device that sends data, or that is still listed after a silence, is never
/// given up: only a failed read, a device that left the list, or the cable
/// taking over the receiver make the mapper reconnect.
pub proof fn law_reconnect_only_on_loss(m: LinkMonitor, e: LinkEvent)
    ensures
        link_step(m, e).1 is Reconnect ==> match e {
            LinkEvent::Failed => true,
            LinkEvent::Refreshed { wired_takes_over, present, .. } => wired_takes_over || !present,
            LinkEvent::Rechecked { present } => !present,
            _ => false,
        },
{
}

/// Silence is measured from the first quiet read: data, or a recheck that finds
/// the device, starts it over, and a check of presence is asked for only once the
/// device has been quiet for longer than the limit.
pub proof fn law_silence_is_measured(m: LinkMonitor, e: LinkEvent)
    ensures
        (e is Data || e == (LinkEvent::Rechecked { present: true })) ==> link_step(
            m,
            e,
        ).0.silent_since_ms is None,
        link_step(m, e).1 is CheckPresence ==> {
            &&& e is Quiet
            &&& m.silent_since_ms is Some
            &&& e->Quiet_now_ms - m.silent_since_ms->0 > SILENT_RECONNECT_AFTER_MS
        },
{
}

} // verus!

//! Decisions of the input backends: which event nodes may be grabbed, and which
//! mouse event a transition becomes on macOS.

use vstd::prelude::*;

use crate::mapper::{ActionKind, Transition};

verus! {

/// Whether a file name under `/dev/input` names an event node (`event...`).
pub open spec fn names_event_node(name: Seq<char>) -> bool {
    name.len() >= 5 && name.take(5) == "event"@
}

/// Whether a file name under `/dev/input` names an event node.
pub fn is_event_node_name(name: &str) -> (r: bool)
    ensures
        r == names_event_node(name@),
{
    proof {
        reveal_strlit("event");
    }
    let prefix = "event";
    if name.unicode_len() < 5 {
        return false;
    }
    for i in 0..5
        invariant
            name@.len() >= 5,
            prefix@ == "event"@,
            prefix@.len() == 5,
            forall|k: int| 0 <= k < i ==> name@[k] == prefix@[k],
    {
        if name.get_char(i) != prefix.get_char(i) {
            assert(name@.take(5)[i as int] != "event"@[i as int]);
            return false;
        }
    }
    assert(name@.take(5) =~= "event"@);
    true
}

/// The key and button codes, and the relative axes, that an input node reports;
/// `None` where the node reports no such kind of event.
#[derive(Debug, PartialEq, Eq)]
pub struct InputCapabilities {
    pub keys: Option<Vec<u16>>,
    pub relative_axes: Option<Vec<u16>>,
}

/// `BTN_LEFT`, `BTN_RIGHT`, `BTN_MIDDLE`, `BTN_SIDE`, `BTN_EXTRA`.
pub const BTN_LEFT: u16 = 0x110;

pub const BTN_RIGHT: u16 = 0x111;

pub const BTN_MIDDLE: u16 = 0x112;

pub const BTN_SIDE: u16 = 0x113;

pub const BTN_EXTRA: u16 = 0x114;

/// The relative axes of pointer movement, `REL_X` and `REL_Y`.
pub const REL_X: u16 = 0x00;

pub const REL_Y: u16 = 0x01;

/// Whether an optional set of codes holds one of `a` and `b`.
pub open spec fn has_either(codes: Option<Vec<u16>>, a: u16, b: u16) -> bool {
    codes matches Some(v) && (v@.contains(a) || v@.contains(b))
}

/// Whether grabbing a node takes only the side buttons away: it has a side or
/// extra button, and neither a primary click (left, right, middle) nor pointer
/// movement, whose loss would freeze the mouse.
pub open spec fn safe_to_grab(caps: InputCapabilities) -> bool {
    &&& has_either(caps.keys, BTN_SIDE, BTN_EXTRA)
    &&& !has_either(caps.keys, BTN_LEFT, BTN_RIGHT)
    &&& !(caps.keys matches Some(v) && v@.contains(BTN_MIDDLE))
    &&& !has_either(caps.relative_axes, REL_X, REL_Y)
}

fn holds(codes: &Vec<u16>, code: u16) -> (r: bool)
    ensures
        r == codes@.contains(code),
{
    for i in 0..codes.len()
        invariant
            forall|k: int| 0 <= k < i ==> codes@[k] != code,
    {
        if codes[i] == code {
            assert(codes@[i as int] == code);
            return true;
        }
    }
    false
}

/// Whether grabbing an input node takes only the side buttons away.
pub fn is_safe_to_grab(caps: &InputCapabilities) -> (r: bool)
    ensures
        r == safe_to_grab(*caps),
{
    let has_side = match &caps.keys {
        Some(k) => holds(k, BTN_SIDE) || holds(k, BTN_EXTRA),
        None => false,
    };
    if !has_side {
        return false;
    }
    let has_primary_click = match &caps.keys {
        Some(k) => holds(k, BTN_LEFT) || holds(k, BTN_RIGHT) || holds(k, BTN_MIDDLE),
        None => false,
    };
    if has_primary_click {
        return false;
    }
    let has_movement = match &caps.relative_axes {
        Some(r) => holds(r, REL_X) || holds(r, REL_Y),
        None => false,
    };
    !has_movement
}

/// What to do with an input node while looking for the side-button node to grab.
#[derive(Clone, Copy, Debug, PartialEq, Eq, Structural)]
pub enum NodeVerdict {
    /// The node belongs to another device.
    OtherDevice,
    /// The node belongs to the mouse, but grabbing it would freeze the pointer.
    Unsafe,
    /// The node carries only the side buttons of the mouse: grab it.
    Grab,
}

/// The verdict on a node with ids `node_vendor`:`node_product` and capabilities
/// `caps`, when the mouse has ids `vid`:`pid`.
pub open spec fn node_verdict_of(
    vid: u16,
    pid: u16,
    node_vendor: u16,
    node_product: u16,
    caps: InputCapabilities,
) -> NodeVerdict {
    if node_vendor != vid || node_product != pid {
        NodeVerdict::OtherDevice
    } else if !safe_to_grab(caps) {
        NodeVerdict::Unsafe
    } else {
        NodeVerdict::Grab
    }
}

/// Decides whether an input node is the side-button node of the mouse to grab.
pub fn node_verdict(
    vid: u16,
    pid: u16,
    node_vendor: u16,
    node_product: u16,
    caps: &InputCapabilities,
) -> (r: NodeVerdict)
    ensures
        r == node_verdict_of(vid, pid, node_vendor, node_product, *caps),
{
    if node_vendor != vid || node_product != pid {
        NodeVerdict::OtherDevice
    } else if !is_safe_to_grab(caps) {
        NodeVerdict::Unsafe
    } else {
        NodeVerdict::Grab
    }
}

/// An "other mouse button" event for macOS: down or up, and the button number.
#[derive(Clone, Copy, Debug, PartialEq, Eq, Structural)]
pub struct OtherMouseEvent {
    pub down: bool,
    pub button_number: i64,
}

/// The macOS mouse event of a transition: button 4 for forward, 3 for back.
pub open spec fn other_mouse_event_of(t: Transition) -> OtherMouseEvent {
    OtherMouseEvent {
        down: t.pressed,
        button_number: match t.kind {
            ActionKind::Forward => 4,
            ActionKind::Back => 3,
        },
    }
}

/// The macOS mouse event that performs a transition.
pub fn other_mouse_event(t: Transition) -> (r: OtherMouseEvent)
    ensures
        r == other_mouse_event_of(t),
{
    let button_number: i64 = match t.kind {
        ActionKind::Forward => 4,
        ActionKind::Back => 3,
    };
    OtherMouseEvent { down: t.pressed, button_number }
}

} // verus!

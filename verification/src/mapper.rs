//! Turning a stream of HID reports into press and release transitions.

use vstd::prelude::*;

use crate::config::MappingConfig;

verus! {

/// Which side button a transition is about.
#[derive(Clone, Copy, Debug, PartialEq, Eq, Structural)]
pub enum ActionKind {
    Forward,
    Back,
}

/// A button that went down (`pressed`) or up.
#[derive(Clone, Copy, Debug, PartialEq, Eq, Structural)]
pub struct Transition {
    pub kind: ActionKind,
    pub pressed: bool,
}

/// The button states seen in the last report.
#[derive(Debug, PartialEq, Eq, Structural)]
pub struct MapperState {
    pub prev_forward: bool,
    pub prev_back: bool,
}

impl Default for MapperState {
    fn default() -> (r: Self)
        ensures
            r == released(),
    {
        MapperState { prev_forward: false, prev_back: false }
    }
}

/// The state in which no button is held.
pub open spec fn released() -> MapperState {
    MapperState { prev_forward: false, prev_back: false }
}

/// Whether `report` is long enough to carry the button byte.
pub open spec fn carries_buttons(cfg: MappingConfig, report: Seq<u8>) -> bool {
    cfg.button_byte < report.len()
}

/// Whether the side button is held according to `report`.
pub open spec fn forward_held(cfg: MappingConfig, report: Seq<u8>) -> bool {
    report[cfg.button_byte as int] & cfg.side_mask != 0
}

/// Whether the extra button is held according to `report`.
pub open spec fn back_held(cfg: MappingConfig, report: Seq<u8>) -> bool {
    report[cfg.button_byte as int] & cfg.extra_mask != 0
}

/// The state after `report`: the held buttons it shows, or `s` unchanged when the
/// report is too short to carry the button byte.
pub open spec fn next_state(s: MapperState, cfg: MappingConfig, report: Seq<u8>) -> MapperState {
    if carries_buttons(cfg, report) {
        MapperState { prev_forward: forward_held(cfg, report), prev_back: back_held(cfg, report) }
    } else {
        s
    }
}

/// The transition of one button from `was` to `now`, if it changed.
pub open spec fn change(kind: ActionKind, was: bool, now: bool) -> Seq<Transition> {
    if was != now {
        seq![Transition { kind, pressed: now }]
    } else {
        seq![]
    }
}

/// The transitions from `s` to `t`: the forward button first, then the back button.
pub open spec fn diff(s: MapperState, t: MapperState) -> Seq<Transition> {
    change(ActionKind::Forward, s.prev_forward, t.prev_forward) + change(
        ActionKind::Back,
        s.prev_back,
        t.prev_back,
    )
}

/// The transitions that `report` causes in state `s`.
pub open spec fn transitions(s: MapperState, cfg: MappingConfig, report: Seq<u8>) -> Seq<
    Transition,
> {
    diff(s, next_state(s, cfg, report))
}

/// The state that results from applying one transition.
pub open spec fn apply(s: MapperState, t: Transition) -> MapperState {
    match t.kind {
        ActionKind::Forward => MapperState { prev_forward: t.pressed, ..s },
        ActionKind::Back => MapperState { prev_back: t.pressed, ..s },
    }
}

/// The state that results from applying transitions in order.
pub open spec fn apply_all(s: MapperState, ts: Seq<Transition>) -> MapperState
    decreases ts.len(),
{
    if ts.len() == 0 {
        s
    } else {
        apply_all(apply(s, ts[0]), ts.drop_first())
    }
}

impl MapperState {
    /// Reads the button byte of `report` and returns the presses and releases since
    /// the last report, forward button first; a report too short for the button
    /// byte changes nothing.
    pub fn update(&mut self, cfg: MappingConfig, report: &[u8]) -> (out: Vec<Transition>)
        ensures
            *final(self) == next_state(*old(self), cfg, report@),
            out@ == transitions(*old(self), cfg, report@),
            cfg.button_byte < report@.len() ==> final(self).prev_forward == (
            report@[cfg.button_byte as int] & cfg.side_mask != 0),
            cfg.button_byte < report@.len() ==> final(self).prev_back == (
            report@[cfg.button_byte as int] & cfg.extra_mask != 0),
            report@.len() <= cfg.button_byte ==> *final(self) == *old(self) && out@.len() == 0,
    {
        if report.len() <= cfg.button_byte {
            return Vec::new();
        }
        let byte = report[cfg.button_byte];
        let forward = (byte & cfg.side_mask) != 0;
        let back = (byte & cfg.extra_mask) != 0;
        let mut out = Vec::with_capacity(2);
        if forward != self.prev_forward {
            out.push(Transition { kind: ActionKind::Forward, pressed: forward });
            self.prev_forward = forward;
        }
        if back != self.prev_back {
            out.push(Transition { kind: ActionKind::Back, pressed: back });
            self.prev_back = back;
        }
        assert(out@ =~= transitions(*old(self), cfg, report@));
        out
    }

    /// Releases every button that is held and returns those releases, forward
    /// button first; afterwards no button is held.
    pub fn synthesize_releases(&mut self) -> (out: Vec<Transition>)
        ensures
            *final(self) == released(),
            out@ == diff(*old(self), released()),
    {
        let mut out = Vec::new();
        if self.prev_forward {
            out.push(Transition { kind: ActionKind::Forward, pressed: false });
            self.prev_forward = false;
        }
        if self.prev_back {
            out.push(Transition { kind: ActionKind::Back, pressed: false });
            self.prev_back = false;
        }
        assert(out@ =~= diff(*old(self), released()));
        out
    }
}

/// Replaying the transitions between two states on the first gives the second:
/// what `update` and `synthesize_releases` report is exactly what changed.
pub proof fn lemma_diff_replays(s: MapperState, t: MapperState)
    ensures
        apply_all(s, diff(s, t)) == t,
{
    let d = diff(s, t);
    reveal_with_fuel(apply_all, 3);
    if s.prev_forward != t.prev_forward {
        assert(d.drop_first() =~= change(ActionKind::Back, s.prev_back, t.prev_back));
    } else {
        assert(d =~= change(ActionKind::Back, s.prev_back, t.prev_back));
    }
}

/// Every transition that a report causes flips the button it names: a button is
/// never reported pressed twice in a row, nor released twice in a row.
pub proof fn law_transitions_flip(s: MapperState, cfg: MappingConfig, report: Seq<u8>, i: int)
    requires
        0 <= i < transitions(s, cfg, report).len(),
    ensures
        ({
            let t = transitions(s, cfg, report)[i];
            match t.kind {
                ActionKind::Forward => t.pressed != s.prev_forward,
                ActionKind::Back => t.pressed != s.prev_back,
            }
        }),
{
}

/// Replaying the transitions that a report causes gives the state after it.
pub proof fn law_transitions_replay(s: MapperState, cfg: MappingConfig, report: Seq<u8>)
    ensures
        apply_all(s, transitions(s, cfg, report)) == next_state(s, cfg, report),
{
    lemma_diff_replays(s, next_state(s, cfg, report));
}

/// The same report twice in a row causes nothing the second time.
pub proof fn law_repeated_report_is_quiet(s: MapperState, cfg: MappingConfig, report: Seq<u8>)
    ensures
        transitions(next_state(s, cfg, report), cfg, report) == Seq::<Transition>::empty(),
        next_state(next_state(s, cfg, report), cfg, report) == next_state(s, cfg, report),
{
    assert(transitions(next_state(s, cfg, report), cfg, report) =~= Seq::<Transition>::empty());
}

/// Releasing twice releases nothing the second time, and releasing replays to the
/// state in which no button is held.
pub proof fn law_release_is_complete(s: MapperState)
    ensures
        diff(released(), released()) == Seq::<Transition>::empty(),
        apply_all(s, diff(s, released())) == released(),
        forall|i: int|
            0 <= i < diff(s, released()).len() ==> !(#[trigger] diff(s, released())[i]).pressed,
{
    assert(diff(released(), released()) =~= Seq::<Transition>::empty());
    lemma_diff_replays(s, released());
}

/// After the buttons are released (on a disconnect), the next report that carries
/// the button byte presses exactly the buttons it shows as held.
pub proof fn law_fresh_start_presses_held_buttons(cfg: MappingConfig, report: Seq<u8>)
    requires
        carries_buttons(cfg, report),
    ensures
        transitions(released(), cfg, report) == change(
            ActionKind::Forward,
            false,
            forward_held(cfg, report),
        ) + change(ActionKind::Back, false, back_held(cfg, report)),
{
}

/// Each button follows its own mask: after a report that carries the button byte,
/// the forward (side) button is held exactly when the byte has a bit of
/// `side_mask`, and the back (extra) button exactly when it has a bit of
/// `extra_mask`; from the released state such a report presses each button
/// exactly when its bit test holds.
pub proof fn law_buttons_follow_their_masks(s: MapperState, cfg: MappingConfig, report: Seq<u8>)
    requires
        cfg.button_byte < report.len(),
    ensures
        next_state(s, cfg, report).prev_forward == (report[cfg.button_byte as int] & cfg.side_mask
            != 0),
        next_state(s, cfg, report).prev_back == (report[cfg.button_byte as int] & cfg.extra_mask
            != 0),
        transitions(released(), cfg, report).contains(
            Transition { kind: ActionKind::Forward, pressed: true },
        ) <==> (report[cfg.button_byte as int] & cfg.side_mask != 0),
        transitions(released(), cfg, report).contains(
            Transition { kind: ActionKind::Back, pressed: true },
        ) <==> (report[cfg.button_byte as int] & cfg.extra_mask != 0),
{
    let byte = report[cfg.button_byte as int];
    let f = byte & cfg.side_mask != 0;
    let b = byte & cfg.extra_mask != 0;
    let ts = transitions(released(), cfg, report);
    let fwd = Transition { kind: ActionKind::Forward, pressed: true };
    let back = Transition { kind: ActionKind::Back, pressed: true };
    if f && b {
        assert(ts =~= seq![fwd, back]);
        assert(ts[0] == fwd && ts[1] == back);
    } else if f {
        assert(ts =~= seq![fwd]);
        assert(ts[0] == fwd);
        assert(!ts.contains(back));
    } else if b {
        assert(ts =~= seq![back]);
        assert(ts[0] == back);
        assert(!ts.contains(fwd));
    } else {
        assert(ts =~= Seq::<Transition>::empty());
    }
}

} // verus!

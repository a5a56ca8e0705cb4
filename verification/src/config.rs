//! The saved settings: how a report is decoded and which device was chosen.

use vstd::prelude::*;

use crate::action::{action_events, action_of, events_of, parse_action, Action, ActionModel, KeyEvent};
use crate::mapper::{ActionKind, Transition};

verus! {

/// Where the side buttons sit in a report, and what each of them does.
#[derive(Debug, PartialEq, Eq)]
pub struct MappingConfig {
    /// Index of the report byte that carries the button bits.
    pub button_byte: usize,
    /// Bit mask of the side (forward) button in that byte.
    pub side_mask: u8,
    /// Bit mask of the extra (back) button in that byte.
    pub extra_mask: u8,
    /// The action of the side button, in the notation `parse_action` reads.
    pub side_action: String,
    /// The action of the extra button, in the notation `parse_action` reads.
    pub extra_action: String,
}

impl Clone for MappingConfig {
    fn clone(&self) -> (r: Self)
        ensures
            r == *self,
    {
        MappingConfig {
            button_byte: self.button_byte,
            side_mask: self.side_mask,
            extra_mask: self.extra_mask,
            side_action: self.side_action.clone(),
            extra_action: self.extra_action.clone(),
        }
    }
}

/// The action of the side button when the settings name none.
pub fn default_side_action() -> (r: String)
    ensures
        r@ == "forward"@,
{
    String::from_str("forward")
}

/// The action of the extra button when the settings name none.
pub fn default_extra_action() -> (r: String)
    ensures
        r@ == "back"@,
{
    String::from_str("back")
}

/// A mapping whose actions have been read: what each side button does.
#[derive(Debug, PartialEq, Eq)]
pub struct ResolvedMapping {
    pub button_byte: usize,
    pub side_mask: u8,
    pub extra_mask: u8,
    pub side_action: Action,
    pub extra_action: Action,
}

/// A resolved mapping as a value of the specification.
pub ghost struct ResolvedModel {
    pub button_byte: usize,
    pub side_mask: u8,
    pub extra_mask: u8,
    pub side_action: ActionModel,
    pub extra_action: ActionModel,
}

impl View for ResolvedMapping {
    type V = ResolvedModel;

    open spec fn view(&self) -> ResolvedModel {
        ResolvedModel {
            button_byte: self.button_byte,
            side_mask: self.side_mask,
            extra_mask: self.extra_mask,
            side_action: self.side_action@,
            extra_action: self.extra_action@,
        }
    }
}

impl Clone for ResolvedMapping {
    fn clone(&self) -> (r: Self)
        ensures
            r@ == self@,
    {
        ResolvedMapping {
            button_byte: self.button_byte,
            side_mask: self.side_mask,
            extra_mask: self.extra_mask,
            side_action: self.side_action.clone(),
            extra_action: self.extra_action.clone(),
        }
    }
}

/// What `resolve` gives for `cfg`: both actions read, the side action first; a
/// name that is no action is reported with the setting it stands in.
pub open spec fn resolved(cfg: MappingConfig) -> Result<ResolvedModel, Seq<char>> {
    match action_of(cfg.side_action@) {
        Err(e) => Err("invalid side_action '"@ + cfg.side_action@ + "': "@ + e),
        Ok(side) => match action_of(cfg.extra_action@) {
            Err(e) => Err("invalid extra_action '"@ + cfg.extra_action@ + "': "@ + e),
            Ok(extra) => Ok(
                ResolvedModel {
                    button_byte: cfg.button_byte,
                    side_mask: cfg.side_mask,
                    extra_mask: cfg.extra_mask,
                    side_action: side,
                    extra_action: extra,
                },
            ),
        },
    }
}

/// The action that a transition of `kind` performs under `m`.
pub open spec fn action_of_kind(m: ResolvedModel, kind: ActionKind) -> ActionModel {
    match kind {
        ActionKind::Forward => m.side_action,
        ActionKind::Back => m.extra_action,
    }
}

fn setting_error(name: &str, value: &String, reason: String) -> (r: String)
    ensures
        r@ == "invalid "@ + name@ + " '"@ + value@ + "': "@ + reason@,
{
    let mut r = String::from_str("invalid ");
    r.append(name);
    r.append(" '");
    r.append(value.as_str());
    r.append("': ");
    r.append(reason.as_str());
    r
}

impl MappingConfig {
    /// Reads the two actions of the mapping.
    pub fn resolve(&self) -> (r: Result<ResolvedMapping, String>)
        ensures
            match r {
                Ok(m) => resolved(*self) == Ok::<ResolvedModel, Seq<char>>(m@),
                Err(e) => resolved(*self) == Err::<ResolvedModel, Seq<char>>(e@),
            },
    {
        proof {
            reveal_strlit("side_action");
            reveal_strlit("extra_action");
            reveal_strlit("invalid ");
            reveal_strlit("invalid side_action '");
            reveal_strlit("invalid extra_action '");
            reveal_strlit(" '");
        }
        let side_action = match parse_action(self.side_action.as_str()) {
            Ok(a) => a,
            Err(e) => {
                let m = setting_error("side_action", &self.side_action, e);
                assert(m@ =~= "invalid side_action '"@ + self.side_action@ + "': "@ + (
                match action_of(self.side_action@) {
                    Err(e) => e,
                    Ok(_) => Seq::empty(),
                }));
                return Err(m);
            },
        };
        let extra_action = match parse_action(self.extra_action.as_str()) {
            Ok(a) => a,
            Err(e) => {
                let m = setting_error("extra_action", &self.extra_action, e);
                assert(m@ =~= "invalid extra_action '"@ + self.extra_action@ + "': "@ + (
                match action_of(self.extra_action@) {
                    Err(e) => e,
                    Ok(_) => Seq::empty(),
                }));
                return Err(m);
            },
        };
        Ok(
            ResolvedMapping {
                button_byte: self.button_byte,
                side_mask: self.side_mask,
                extra_mask: self.extra_mask,
                side_action,
                extra_action,
            },
        )
    }
}

impl ResolvedMapping {
    /// The action that a transition of `kind` performs.
    pub fn action_for(&self, kind: ActionKind) -> (r: &Action)
        ensures
            r@ == action_of_kind(self@, kind),
            kind == ActionKind::Forward ==> r@ == self.side_action@,
            kind == ActionKind::Back ==> r@ == self.extra_action@,
    {
        match kind {
            ActionKind::Forward => &self.side_action,
            ActionKind::Back => &self.extra_action,
        }
    }

    /// The key events that perform a transition.
    pub fn transition_events(&self, t: Transition) -> (r: Vec<KeyEvent>)
        ensures
            r@ == events_of(action_of_kind(self@, t.kind), t.pressed),
            t.kind == ActionKind::Forward ==> r@ == events_of(self.side_action@, t.pressed),
            t.kind == ActionKind::Back ==> r@ == events_of(self.extra_action@, t.pressed),
    {
        action_events(self.action_for(t.kind), t.pressed)
    }
}

/// The device that was chosen before, and how its reports are read.
#[derive(Debug, PartialEq, Eq)]
pub struct SavedProfile {
    pub path: String,
    pub vid: u16,
    pub pid: u16,
    pub serial: Option<String>,
    pub usage_page: u16,
    pub usage: u16,
    pub interface_number: i32,
    pub mapping: MappingConfig,
}

/// A copy of an optional string.
pub fn clone_opt_string(s: &Option<String>) -> (r: Option<String>)
    ensures
        r == *s,
{
    match s {
        Some(v) => Some(v.clone()),
        None => None,
    }
}

impl Clone for SavedProfile {
    fn clone(&self) -> (r: Self)
        ensures
            r == *self,
    {
        SavedProfile {
            path: self.path.clone(),
            vid: self.vid,
            pid: self.pid,
            serial: clone_opt_string(&self.serial),
            usage_page: self.usage_page,
            usage: self.usage,
            interface_number: self.interface_number,
            mapping: self.mapping.clone(),
        }
    }
}

/// Everything that is saved between runs.
#[derive(Debug, PartialEq, Eq)]
pub struct AppConfig {
    pub profile: Option<SavedProfile>,
}

impl Default for AppConfig {
    fn default() -> (r: Self)
        ensures
            r.profile is None,
    {
        AppConfig { profile: None }
    }
}

/// Each button performs its own setting: a forward (side button) transition
/// performs the mapping's side action and a back (extra button) transition its
/// extra action; and the resolved actions are the ones the settings name.
pub proof fn law_each_button_performs_its_action(cfg: MappingConfig, m: ResolvedModel, pressed: bool)
    ensures
        events_of(action_of_kind(m, ActionKind::Forward), pressed) == events_of(
            m.side_action,
            pressed,
        ),
        events_of(action_of_kind(m, ActionKind::Back), pressed) == events_of(
            m.extra_action,
            pressed,
        ),
        resolved(cfg) == Ok::<ResolvedModel, Seq<char>>(m) ==> action_of(cfg.side_action@) == Ok::<
            ActionModel,
            Seq<char>,
        >(m.side_action) && action_of(cfg.extra_action@) == Ok::<ActionModel, Seq<char>>(
            m.extra_action,
        ) && m.button_byte == cfg.button_byte && m.side_mask == cfg.side_mask && m.extra_mask
            == cfg.extra_mask,
{
}

} // verus!

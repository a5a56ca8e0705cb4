//! The run settings: which device to use and how to read it.

use vstd::prelude::*;

use crate::config::{clone_opt_string, default_extra_action, default_side_action, MappingConfig, SavedProfile};

verus! {

/// Settings of a run: device selectors (each optional) and report decoding.
#[derive(Debug, PartialEq, Eq)]
pub struct RunArgs {
    pub path: Option<String>,
    pub vid: Option<u16>,
    pub pid: Option<u16>,
    pub serial: Option<String>,
    pub usage_page: Option<u16>,
    pub usage: Option<u16>,
    pub interface_number: Option<i32>,
    pub report_len: usize,
    pub button_byte: usize,
    pub side_mask: u8,
    pub extra_mask: u8,
    pub timeout_ms: i32,
    pub name: String,
}

impl Clone for RunArgs {
    fn clone(&self) -> (r: Self)
        ensures
            r == *self,
    {
        RunArgs {
            path: clone_opt_string(&self.path),
            vid: self.vid,
            pid: self.pid,
            serial: clone_opt_string(&self.serial),
            usage_page: self.usage_page,
            usage: self.usage,
            interface_number: self.interface_number,
            report_len: self.report_len,
            button_byte: self.button_byte,
            side_mask: self.side_mask,
            extra_mask: self.extra_mask,
            timeout_ms: self.timeout_ms,
            name: self.name.clone(),
        }
    }
}

/// The settings of a run when none are given: no selector, 64-byte reports whose
/// byte 1 holds the side button in bit 0x10 and the extra button in bit 0x08.
pub fn default_run_args() -> (r: RunArgs)
    ensures
        r.path is None,
        r.vid is None,
        r.pid is None,
        r.serial is None,
        r.usage_page is None,
        r.usage is None,
        r.interface_number is None,
        r.report_len == 64,
        r.button_byte == 1,
        r.side_mask == 0x10,
        r.extra_mask == 0x08,
        r.timeout_ms == 250,
        r.name@ == "chimera-mapper"@,
{
    RunArgs {
        path: None,
        vid: None,
        pid: None,
        serial: None,
        usage_page: None,
        usage: None,
        interface_number: None,
        report_len: 64,
        button_byte: 1,
        side_mask: 0x10,
        extra_mask: 0x08,
        timeout_ms: 250,
        name: String::from_str("chimera-mapper"),
    }
}

/// Whether the settings name the device in any way.
pub open spec fn has_selector(a: RunArgs) -> bool {
    ||| a.path is Some
    ||| a.vid is Some
    ||| a.pid is Some
    ||| a.serial is Some
    ||| a.usage_page is Some
    ||| a.usage is Some
    ||| a.interface_number is Some
}

/// Whether the settings name the device in any way.
pub fn has_explicit_device_selector(args: &RunArgs) -> (r: bool)
    ensures
        r == has_selector(*args),
{
    args.path.is_some() || args.vid.is_some() || args.pid.is_some() || args.serial.is_some()
        || args.usage_page.is_some() || args.usage.is_some() || args.interface_number.is_some()
}

/// Whether `m` decodes reports as the settings `a` say, with the default actions.
pub open spec fn mapping_of(a: RunArgs, m: MappingConfig) -> bool {
    &&& m.button_byte == a.button_byte
    &&& m.side_mask == a.side_mask
    &&& m.extra_mask == a.extra_mask
    &&& m.side_action@ == "forward"@
    &&& m.extra_action@ == "back"@
}

/// The report decoding that the settings give, with the default actions.
pub fn mapping_from_args(args: &RunArgs) -> (r: MappingConfig)
    ensures
        mapping_of(*args, r),
{
    MappingConfig {
        button_byte: args.button_byte,
        side_mask: args.side_mask,
        extra_mask: args.extra_mask,
        side_action: default_side_action(),
        extra_action: default_extra_action(),
    }
}

/// Whether the settings pin the device down enough to be saved: path, vendor and
/// product ids, usage page, usage and interface number all given.
pub open spec fn savable(a: RunArgs) -> bool {
    &&& a.path is Some
    &&& a.vid is Some
    &&& a.pid is Some
    &&& a.usage_page is Some
    &&& a.usage is Some
    &&& a.interface_number is Some
}

/// Whether `p` records the device and decoding of the settings `a`.
pub open spec fn profile_of(a: RunArgs, p: SavedProfile) -> bool {
    &&& a.path == Some(p.path)
    &&& a.vid == Some(p.vid)
    &&& a.pid == Some(p.pid)
    &&& a.serial == p.serial
    &&& a.usage_page == Some(p.usage_page)
    &&& a.usage == Some(p.usage)
    &&& a.interface_number == Some(p.interface_number)
    &&& mapping_of(a, p.mapping)
}

/// The profile to save for the settings, when they pin the device down.
pub fn saved_profile_from_args(args: &RunArgs) -> (r: Option<SavedProfile>)
    ensures
        match r {
            Some(p) => savable(*args) && profile_of(*args, p),
            None => !savable(*args),
        },
{
    let path = match &args.path {
        Some(p) => p.clone(),
        None => return None,
    };
    let vid = match args.vid {
        Some(v) => v,
        None => return None,
    };
    let pid = match args.pid {
        Some(v) => v,
        None => return None,
    };
    let usage_page = match args.usage_page {
        Some(v) => v,
        None => return None,
    };
    let usage = match args.usage {
        Some(v) => v,
        None => return None,
    };
    let interface_number = match args.interface_number {
        Some(v) => v,
        None => return None,
    };
    Some(
        SavedProfile {
            path,
            vid,
            pid,
            serial: clone_opt_string(&args.serial),
            usage_page,
            usage,
            interface_number,
            mapping: mapping_from_args(args),
        },
    )
}

/// The settings `a` with the device and decoding of the profile `p` put in.
pub open spec fn with_profile(a: RunArgs, p: SavedProfile) -> RunArgs {
    RunArgs {
        path: Some(p.path),
        vid: Some(p.vid),
        pid: Some(p.pid),
        serial: p.serial,
        usage_page: Some(p.usage_page),
        usage: Some(p.usage),
        interface_number: Some(p.interface_number),
        button_byte: p.mapping.button_byte,
        side_mask: p.mapping.side_mask,
        extra_mask: p.mapping.extra_mask,
        ..a
    }
}

/// Puts the device and report decoding of a saved profile into the settings.
pub fn apply_saved_profile(args: &RunArgs, profile: &SavedProfile) -> (r: RunArgs)
    ensures
        r == with_profile(*args, *profile),
{
    let mut resolved = args.clone();
    resolved.path = Some(profile.path.clone());
    resolved.vid = Some(profile.vid);
    resolved.pid = Some(profile.pid);
    resolved.serial = clone_opt_string(&profile.serial);
    resolved.usage_page = Some(profile.usage_page);
    resolved.usage = Some(profile.usage);
    resolved.interface_number = Some(profile.interface_number);
    resolved.button_byte = profile.mapping.button_byte;
    resolved.side_mask = profile.mapping.side_mask;
    resolved.extra_mask = profile.mapping.extra_mask;
    resolved
}

/// Settings with a saved profile put in always name the device, and pin it down
/// enough to be saved again.
pub proof fn law_profile_selects_device(a: RunArgs, p: SavedProfile)
    ensures
        has_selector(with_profile(a, p)),
        savable(with_profile(a, p)),
{
}

/// Saving the settings that a profile was put into gives that profile back: same
/// device, same decoding, and (when the profile has the default actions) the
/// same actions.
pub proof fn law_profile_round_trip(a: RunArgs, p: SavedProfile, q: SavedProfile)
    requires
        profile_of(with_profile(a, p), q),
    ensures
        q.path == p.path,
        q.vid == p.vid,
        q.pid == p.pid,
        q.serial == p.serial,
        q.usage_page == p.usage_page,
        q.usage == p.usage,
        q.interface_number == p.interface_number,
        q.mapping.button_byte == p.mapping.button_byte,
        q.mapping.side_mask == p.mapping.side_mask,
        q.mapping.extra_mask == p.mapping.extra_mask,
        p.mapping.side_action@ == "forward"@ ==> q.mapping.side_action@ == p.mapping.side_action@,
        p.mapping.extra_action@ == "back"@ ==> q.mapping.extra_action@ == p.mapping.extra_action@,
{
}

/// Where the settings of a run come from.
#[derive(Debug, PartialEq, Eq)]
pub enum RunArgsPlan {
    /// The settings name the device: use them as given.
    Given,
    /// Try these settings, made from the saved profile; if their device does not
    /// open, detect the device.
    TrySaved(RunArgs),
    /// Detect the device.
    Detect,
}

/// Decides where the settings of a run come from: device selectors given on the
/// command line win; else the saved profile is tried; else the device is detected.
pub fn plan_run_args(args: &RunArgs, saved: &Option<SavedProfile>) -> (r: RunArgsPlan)
    ensures
        match r {
            RunArgsPlan::Given => has_selector(*args),
            RunArgsPlan::TrySaved(a) => !has_selector(*args) && saved is Some && a == with_profile(
                *args,
                saved->0,
            ),
            RunArgsPlan::Detect => !has_selector(*args) && saved is None,
        },
{
    if has_explicit_device_selector(args) {
        return RunArgsPlan::Given;
    }
    match saved {
        Some(profile) => RunArgsPlan::TrySaved(apply_saved_profile(args, profile)),
        None => RunArgsPlan::Detect,
    }
}

} // verus!

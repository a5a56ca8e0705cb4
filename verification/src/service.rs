//! The files that make the mapper start on login: a systemd user unit on Linux
//! and a launchd agent on macOS.

use vstd::prelude::*;

use crate::text::{trim, trim_str};

verus! {

/// The text of the systemd user unit that runs `exe run`.
pub open spec fn systemd_unit_text(exe: Seq<char>) -> Seq<char> {
    "[Unit]\nDescription=Chimera Mapper HID daemon\n\n[Service]\nExecStart="@ + exe + " run\nRestart=on-failure\n\n[Install]\nWantedBy=default.target\n"@
}

/// The systemd user unit that runs the mapper at `exe`.
pub fn systemd_unit(exe: &str) -> (r: String)
    ensures
        r@ == systemd_unit_text(exe@),
{
    let mut s = String::from_str("[Unit]\nDescription=Chimera Mapper HID daemon\n\n[Service]\nExecStart=");
    s.append(exe);
    s.append(" run\nRestart=on-failure\n\n[Install]\nWantedBy=default.target\n");
    s
}

/// The text of the launchd agent that keeps `exe run` alive, logging to
/// `log_out` and `log_err`.
pub open spec fn launchd_plist_text(exe: Seq<char>, log_out: Seq<char>, log_err: Seq<char>) -> Seq<
    char,
> {
    "<?xml version=\"1.0\" encoding=\"UTF-8\"?>\n<!DOCTYPE plist PUBLIC \"-//Apple//DTD PLIST 1.0//EN\" \"http://www.apple.com/DTDs/PropertyList-1.0.dtd\">\n<plist version=\"1.0\">\n<dict>\n    <key>Label</key>\n    <string>com.chimera-mapper</string>\n    <key>ProgramArguments</key>\n    <array>\n        <string>"@ + exe + "</string>\n        <string>run</string>\n    </array>\n    <key>RunAtLoad</key>\n    <true/>\n    <key>KeepAlive</key>\n    <true/>\n    <key>ProcessType</key>\n    <string>Interactive</string>\n    <key>LimitLoadToSessionType</key>\n    <string>Aqua</string>\n    <key>StandardOutPath</key>\n    <string>"@ + log_out + "</string>\n    <key>StandardErrorPath</key>\n    <string>"@ + log_err + "</string>\n</dict>\n</plist>\n"@
}

/// The launchd agent that keeps the mapper at `exe` running.
pub fn launchd_plist(exe: &str, log_out: &str, log_err: &str) -> (r: String)
    ensures
        r@ == launchd_plist_text(exe@, log_out@, log_err@),
{
    let mut s = String::from_str("<?xml version=\"1.0\" encoding=\"UTF-8\"?>\n<!DOCTYPE plist PUBLIC \"-//Apple//DTD PLIST 1.0//EN\" \"http://www.apple.com/DTDs/PropertyList-1.0.dtd\">\n<plist version=\"1.0\">\n<dict>\n    <key>Label</key>\n    <string>com.chimera-mapper</string>\n    <key>ProgramArguments</key>\n    <array>\n        <string>");
    s.append(exe);
    s.append("</string>\n        <string>run</string>\n    </array>\n    <key>RunAtLoad</key>\n    <true/>\n    <key>KeepAlive</key>\n    <true/>\n    <key>ProcessType</key>\n    <string>Interactive</string>\n    <key>LimitLoadToSessionType</key>\n    <string>Aqua</string>\n    <key>StandardOutPath</key>\n    <string>");
    s.append(log_out);
    s.append("</string>\n    <key>StandardErrorPath</key>\n    <string>");
    s.append(log_err);
    s.append("</string>\n</dict>\n</plist>\n");
    s
}

/// The launchd domain of the user whose id `id -u` printed, unless it printed
/// nothing but white space.
pub open spec fn gui_domain(uid_output: Seq<char>) -> Option<Seq<char>> {
    if trim(uid_output).len() == 0 {
        None
    } else {
        Some("gui/"@ + trim(uid_output))
    }
}

/// The launchd domain of the user whose id `id -u` printed.
pub fn launchd_gui_target(uid_output: &str) -> (r: Option<String>)
    ensures
        match r {
            Some(t) => gui_domain(uid_output@) == Some(t@),
            None => gui_domain(uid_output@) is None,
        },
{
    let uid = trim_str(uid_output);
    if uid.unicode_len() == 0 {
        None
    } else {
        let mut s = String::from_str("gui/");
        s.append(uid);
        Some(s)
    }
}

} // verus!

//! Starting with the user session. On macOS a Launch Agent property list in
//! `~/Library/LaunchAgents` does it; this module computes where that file
//! lives and what it holds, and how a toggle request turns out.

use vstd::prelude::*;
use crate::text::{concat_str, join_path, path_join};

verus! {

/// The bundle identifier, which names the Launch Agent and its file.
pub const BUNDLE_ID: &'static str = "io.github.lovablepablo.macropaste";

pub const HOME_MISSING_MESSAGE: &'static str = "HOME environment variable not set";

pub const PLIST_START: &'static str = "<?xml version=\"1.0\" encoding=\"UTF-8\"?>\n<!DOCTYPE plist PUBLIC \"-//Apple//DTD PLIST 1.0//EN\" \"http://www.apple.com/DTDs/PropertyList-1.0.dtd\">\n<plist version=\"1.0\">\n<dict>\n    <key>Label</key>\n    <string>";

pub const PLIST_MIDDLE: &'static str = "</string>\n    <key>ProgramArguments</key>\n    <array>\n        <string>";

pub const PLIST_END: &'static str = "</string>\n    </array>\n    <key>RunAtLoad</key>\n    <true/>\n</dict>\n</plist>";

/// The Launch Agents directory under a home directory.
pub open spec fn launch_agents_dir(home: Seq<char>) -> Seq<char> {
    path_join(path_join(home, "Library"@), "LaunchAgents"@)
}

/// The Launch Agent file under a home directory.
pub open spec fn plist_file(home: Seq<char>) -> Seq<char> {
    path_join(launch_agents_dir(home), BUNDLE_ID@ + ".plist"@)
}

/// The Launch Agent property list that starts `exe` at login.
pub open spec fn launch_agent_xml(exe: Seq<char>) -> Seq<char> {
    PLIST_START@ + BUNDLE_ID@ + PLIST_MIDDLE@ + exe + PLIST_END@
}

/// The Launch Agent file, given the `HOME` variable if it is set.
pub fn plist_path(home: Option<&str>) -> (res: Result<String, String>)
    ensures
        match home {
            Some(h) => res matches Ok(p) && p@ == plist_file(h@),
            None => res matches Err(e) && e@ == HOME_MISSING_MESSAGE@,
        },
{
    match home {
        Some(h) => {
            let lib = join_path(h, "Library");
            let dir = join_path(lib.as_str(), "LaunchAgents");
            let name = concat_str(BUNDLE_ID, ".plist");
            Ok(join_path(dir.as_str(), name.as_str()))
        },
        None => Err(String::from_str(HOME_MISSING_MESSAGE)),
    }
}

/// The property list that starts `exe` at login.
pub fn launch_agent_plist(exe: &str) -> (res: String)
    ensures
        res@ == launch_agent_xml(exe@),
{
    let mut s = String::from_str(PLIST_START);
    s.append(BUNDLE_ID);
    s.append(PLIST_MIDDLE);
    s.append(exe);
    s.append(PLIST_END);
    s
}

/// The file to write to turn autostart on: the directory to create, the
/// file, and its content.
#[derive(Clone, Debug)]
pub struct LaunchAgentFile {
    pub dir: String,
    pub path: String,
    pub contents: String,
}

/// What turning autostart on writes, for the running program at `exe_path`,
/// given the `HOME` variable if it is set.
pub fn enable_autostart(exe_path: &str, home: Option<&str>) -> (res: Result<LaunchAgentFile, String>)
    ensures
        match home {
            Some(h) => res matches Ok(f) && f.dir@ == launch_agents_dir(h@) && f.path@ == plist_file(
                h@,
            ) && f.contents@ == launch_agent_xml(exe_path@),
            None => res matches Err(e) && e@ == HOME_MISSING_MESSAGE@,
        },
{
    match home {
        Some(h) => {
            let lib = join_path(h, "Library");
            let dir = join_path(lib.as_str(), "LaunchAgents");
            let name = concat_str(BUNDLE_ID, ".plist");
            let path = join_path(dir.as_str(), name.as_str());
            Ok(LaunchAgentFile { dir, path, contents: launch_agent_plist(exe_path) })
        },
        None => Err(String::from_str(HOME_MISSING_MESSAGE)),
    }
}

/// The file whose removal turns autostart off, given the `HOME` variable
/// if it is set; it is removed only if it exists.
pub fn disable_autostart(home: Option<&str>) -> (res: Result<String, String>)
    ensures
        match home {
            Some(h) => res matches Ok(p) && p@ == plist_file(h@),
            None => res matches Err(e) && e@ == HOME_MISSING_MESSAGE@,
        },
{
    plist_path(home)
}

/// Which change a toggle request makes.
#[derive(Clone, Copy, Debug, PartialEq, Eq, Structural)]
pub enum AutostartChange {
    Enable,
    Disable,
}

/// The change that asking for autostart `enable` makes.
pub fn autostart_change(enable: bool) -> (res: AutostartChange)
    ensures
        res == (if enable { AutostartChange::Enable } else { AutostartChange::Disable }),
{
    if enable {
        AutostartChange::Enable
    } else {
        AutostartChange::Disable
    }
}

/// The answer to a toggle request, given how the change went: the new state
/// when it succeeded, else its error.
pub fn toggle_autostart(enable: bool, outcome: Result<(), String>) -> (res: Result<bool, String>)
    ensures
        match outcome {
            Ok(()) => res == Ok::<bool, String>(enable),
            Err(e) => res matches Err(f) && f@ == e@,
        },
{
    match outcome {
        Ok(()) => Ok(enable),
        Err(e) => Err(e),
    }
}

} // verus!

verus! {

/// The Launch Agent file lies directly in the directory that turning
/// autostart on creates, and turning it off and checking it look at the same
/// file.
pub proof fn plist_file_lies_in_launch_agents_dir(home: Seq<char>)
    ensures
        plist_file(home) == launch_agents_dir(home).push('/') + (BUNDLE_ID@ + ".plist"@),
{
    reveal_strlit("LaunchAgents");
    crate::text::path_join_ends_with_component(path_join(home, "Library"@), "LaunchAgents"@);
}

} // verus!

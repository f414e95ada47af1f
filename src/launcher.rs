use vstd::prelude::*;

verus! {

use crate::error::CommandError;

/// The operating system family that the shell runs on.
#[derive(Debug, Clone, Copy, PartialEq, Eq, Structural)]
pub enum OsFamily {
    Windows,
    MacOs,
    Linux,
    Other,
}

/// The program that opens a file-manager window on each family; none is known
/// for other systems.
pub open spec fn launcher_program(os: OsFamily) -> Option<Seq<char>> {
    match os {
        OsFamily::Windows => Some("explorer"@),
        OsFamily::MacOs => Some("open"@),
        OsFamily::Linux => Some("xdg-open"@),
        OsFamily::Other => None,
    }
}

/// The file-manager launcher of `os`.
pub fn launcher_of(os: OsFamily) -> (r: Option<String>)
    ensures
        match r {
            Some(p) => launcher_program(os) == Some(p@),
            None => launcher_program(os) is None,
        },
{
    match os {
        OsFamily::Windows => Some(String::from_str("explorer")),
        OsFamily::MacOs => Some(String::from_str("open")),
        OsFamily::Linux => Some(String::from_str("xdg-open")),
        OsFamily::Other => None,
    }
}

/// A process to start: the program and its arguments.
#[derive(Debug)]
pub struct LaunchRequest {
    pub program: String,
    pub args: Vec<String>,
}

/// The process that reveals `path` in the file manager of `os`. The path is
/// passed on as the single argument whatever it holds, the empty string
/// included: whether it names a folder is for the launched program to find.
pub fn launch_request(os: OsFamily, path: String) -> (r: Option<LaunchRequest>)
    ensures
        match launcher_program(os) {
            Some(p) => r matches Some(q) && q.program@ == p && q.args@.len() == 1
                && q.args@[0]@ == path@,
            None => r is None,
        },
{
    match launcher_of(os) {
        Some(program) => {
            let mut args: Vec<String> = Vec::new();
            args.push(path);
            Some(LaunchRequest { program, args })
        },
        None => None,
    }
}

/// What opening a folder returns once the launcher was started, or failed to
/// start with the operating system's message. The call does not wait for the
/// launcher to finish.
pub fn spawn_outcome(spawned: Result<(), String>) -> (r: Result<(), CommandError>)
    ensures
        match spawned {
            Ok(()) => r is Ok,
            Err(e) => r == Err::<(), CommandError>(CommandError::Spawn(e)),
        },
{
    match spawned {
        Ok(()) => Ok(()),
        Err(e) => Err(CommandError::Spawn(e)),
    }
}

} // verus!

use vstd::prelude::*;

verus! {

use crate::error::CommandError;
use crate::launcher::OsFamily;
use crate::text::{text_of_bytes, utf8_text};

/// The bytes of `secrets`, the name of the directory under the application's
/// data directory that holds the secrets.
pub open spec fn segment_bytes() -> Seq<u8> {
    seq![115u8, 101u8, 99u8, 114u8, 101u8, 116u8, 115u8]
}

/// The separator that `os` places between path components.
pub open spec fn separator(os: OsFamily) -> u8 {
    match os {
        OsFamily::Windows => 92u8,
        _ => 47u8,
    }
}

/// Whether `os` reads byte `b` as a path separator.
pub open spec fn is_separator(os: OsFamily, b: u8) -> bool {
    b == 47u8 || (os == OsFamily::Windows && b == 92u8)
}

/// The secrets directory under the data directory `base`: the segment is
/// appended, with a separator between unless `base` is empty or already ends
/// in one.
pub open spec fn secrets_dir_of(os: OsFamily, base: Seq<u8>) -> Seq<u8> {
    if base.len() > 0 && !is_separator(os, base.last()) {
        base.push(separator(os)) + segment_bytes()
    } else {
        base + segment_bytes()
    }
}

/// Where the secrets directory lies, given the data directory that the host
/// resolved, or `None` where it could not resolve one.
pub fn secrets_dir(os: OsFamily, app_data_dir: Option<Vec<u8>>) -> (r: Result<Vec<u8>, CommandError>)
    ensures
        match app_data_dir {
            Some(base) => r matches Ok(p) && p@ == secrets_dir_of(os, base@),
            None => r == Err::<Vec<u8>, CommandError>(CommandError::PathResolution),
        },
{
    match app_data_dir {
        None => Err(CommandError::PathResolution),
        Some(base) => {
            let mut p = base;
            let n = p.len();
            let sep: u8 = match os {
                OsFamily::Windows => 92u8,
                _ => 47u8,
            };
            if n > 0 {
                let last = p[n - 1];
                let at_separator = last == 47u8 || (matches!(os, OsFamily::Windows) && last == 92u8);
                if !at_separator {
                    p.push(sep);
                }
            }
            p.push(115u8);
            p.push(101u8);
            p.push(99u8);
            p.push(114u8);
            p.push(101u8);
            p.push(116u8);
            p.push(115u8);
            assert(p@ =~= secrets_dir_of(os, base@));
            Ok(p)
        },
    }
}

/// What the command returns once the directory was created (or creating it
/// failed with the operating system's message), given the directory's path as
/// text, or `None` where it is not text.
pub fn finish_secrets_path(created: Result<(), String>, text: Option<String>) -> (r: Result<String, CommandError>)
    ensures
        match created {
            Err(e) => r == Err::<String, CommandError>(CommandError::Io(e)),
            Ok(()) => match text {
                Some(s) => r == Ok::<String, CommandError>(s),
                None => r == Err::<String, CommandError>(CommandError::Encoding),
            },
        },
{
    match created {
        Err(e) => Err(CommandError::Io(e)),
        Ok(()) => match text {
            Some(s) => Ok(s),
            None => Err(CommandError::Encoding),
        },
    }
}

/// What the command returns once the directory `dir` was created, or creating
/// it failed with the operating system's message: the path as text, or an
/// error where it is not valid UTF-8.
pub fn secrets_path_text(created: Result<(), String>, dir: &Vec<u8>) -> (r: Result<String, CommandError>)
    ensures
        match created {
            Err(e) => r == Err::<String, CommandError>(CommandError::Io(e)),
            Ok(()) => match utf8_text(dir@) {
                Some(t) => r matches Ok(s) && s@ == t,
                None => r == Err::<String, CommandError>(CommandError::Encoding),
            },
        },
{
    match created {
        Err(e) => Err(CommandError::Io(e)),
        Ok(()) => finish_secrets_path(Ok(()), text_of_bytes(dir)),
    }
}

} // verus!

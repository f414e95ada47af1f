use vstd::prelude::*;

verus! {

/// Why a command failed.
#[derive(Debug, Clone, PartialEq, Eq)]
pub enum CommandError {
    /// The host could not supply the application's data directory.
    PathResolution,
    /// Creating the directory failed; holds the operating system's words.
    Io(String),
    /// The path cannot be represented as text.
    Encoding,
    /// The launcher process could not be started; holds the operating system's words.
    Spawn(String),
    /// The user cancelled the dialog or chose nothing.
    NoSelection,
}

/// The text handed back to the front end for an error.
pub open spec fn message_of(e: CommandError) -> Seq<char> {
    match e {
        CommandError::PathResolution => "Failed to get app data dir"@,
        CommandError::Io(detail) => "Failed to create secrets directory: "@ + detail@,
        CommandError::Encoding => "Failed to convert path to string"@,
        CommandError::Spawn(detail) => detail@,
        CommandError::NoSelection => "No files selected"@,
    }
}

impl CommandError {
    /// The message that the front end shows for this error.
    pub fn message(&self) -> (r: String)
        ensures
            r@ == message_of(*self),
    {
        match self {
            CommandError::PathResolution => String::from_str("Failed to get app data dir"),
            CommandError::Io(detail) => {
                let mut s = String::from_str("Failed to create secrets directory: ");
                s.append(detail.as_str());
                s
            },
            CommandError::Encoding => String::from_str("Failed to convert path to string"),
            CommandError::Spawn(detail) => detail.clone(),
            CommandError::NoSelection => String::from_str("No files selected"),
        }
    }
}

} // verus!

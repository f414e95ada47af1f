//! Command logic of a desktop shell: where the per-user secrets directory
//! lies, which launcher reveals a folder, and what a file selection yields.
//! Resolving the data directory, creating directories, spawning processes and
//! showing dialogs are done by the host; these functions take what it saw and
//! decide what the command returns.

mod error;
mod launcher;
mod secrets;
mod selection;
mod text;

pub use error::{message_of, CommandError};
pub use launcher::{launch_request, launcher_of, launcher_program, spawn_outcome, LaunchRequest, OsFamily};
pub use secrets::{finish_secrets_path, is_separator, secrets_dir, secrets_dir_of, secrets_path_text, segment_bytes, separator};
pub use selection::{kept_texts, lemma_selection_keeps_text_in_order, selection_from_texts, selection_result, text_view};
pub use text::utf8_text;

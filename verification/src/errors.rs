//! Outcomes of a command: the success report and the error taxonomy, each
//! with its human-readable message.

use vstd::prelude::*;
use vstd::string::StringExecFns;

verus! {

/// Why a command failed. Every failure is terminal: nothing is retried.
#[derive(Debug, Clone, PartialEq, Eq)]
pub enum CommandError {
    /// Save was invoked without a name; Save has no interactive fallback.
    MissingName,
    /// The interactive picker was cancelled; no path was produced.
    SelectionAborted,
    /// The resolved path does not exist on disk; carries that exact path.
    ArchiveNotFound(String),
    /// The resolved path does not end in `.tar`; carries that exact path.
    InvalidExtension(String),
    /// The external runtime or delete exited nonzero; carries the fixed
    /// operation-specific message.
    ExternalProcessFailure(String),
    /// Reading, writing or spawning failed while performing an action.
    IoFailure(String),
}

/// What a successfully completed command reports.
#[derive(Debug, Clone, PartialEq, Eq)]
pub enum CommandSuccess {
    /// The image was saved to its destination archive.
    Saved,
    /// The archive was loaded into the image store.
    Loaded,
    /// The archive at this path was deleted; the path is echoed back.
    Removed(String),
}

/// The message that `CommandError::message` returns.
pub open spec fn message_of(e: CommandError) -> Seq<char> {
    match e {
        CommandError::MissingName => "please provide a name for the image"@,
        CommandError::SelectionAborted => "image selection aborted"@,
        CommandError::ArchiveNotFound(p) => "file does not exist: "@ + p@,
        CommandError::InvalidExtension(p) => "file is not a tar file: "@ + p@,
        CommandError::ExternalProcessFailure(m) => m@,
        CommandError::IoFailure(m) => m@,
    }
}

impl CommandError {
    /// The human-readable description of the failure, with the offending
    /// path where one is involved.
    pub fn message(&self) -> (r: String)
        ensures
            r@ == message_of(*self),
    {
        match self {
            CommandError::MissingName => "please provide a name for the image".to_owned(),
            CommandError::SelectionAborted => "image selection aborted".to_owned(),
            CommandError::ArchiveNotFound(p) => {
                let mut r = "file does not exist: ".to_owned();
                r.append(p.as_str());
                r
            },
            CommandError::InvalidExtension(p) => {
                let mut r = "file is not a tar file: ".to_owned();
                r.append(p.as_str());
                r
            },
            CommandError::ExternalProcessFailure(m) => m.clone(),
            CommandError::IoFailure(m) => m.clone(),
        }
    }
}

} // verus!

//! Failures of the file operations, each carrying the message shown to the
//! user.
use vstd::prelude::*;

verus! {

/// A failure reported by the operating system for one file operation.
#[derive(Debug)]
pub struct OsError {
    /// The target did not exist.
    pub not_found: bool,
    /// The system's own description of the failure.
    pub detail: String,
}

/// What went wrong, with a human-readable message.
#[derive(Debug)]
pub enum FileError {
    /// The target path or folder does not exist.
    NotFound(String),
    /// A folder was asked for, and the path names something else.
    NotADirectory(String),
    /// Any other failure to read or stat.
    Io(String),
    /// The worker that ran a scan did not run to completion.
    TaskFailure(String),
}

impl FileError {
    /// The message carried by the error.
    pub open spec fn message_spec(&self) -> Seq<char> {
        match self {
            FileError::NotFound(m) => m@,
            FileError::NotADirectory(m) => m@,
            FileError::Io(m) => m@,
            FileError::TaskFailure(m) => m@,
        }
    }

    /// The message shown to the user.
    pub fn message(&self) -> (r: String)
        ensures
            r@ == self.message_spec(),
    {
        match self {
            FileError::NotFound(m) => m.clone(),
            FileError::NotADirectory(m) => m.clone(),
            FileError::Io(m) => m.clone(),
            FileError::TaskFailure(m) => m.clone(),
        }
    }

    /// The error for an operating-system failure during the operation that
    /// `context` describes: the message is the context followed by the
    /// system's description.
    pub fn from_os(context: &str, e: OsError) -> (r: FileError)
        ensures
            e.not_found ==> r is NotFound,
            !e.not_found ==> r is Io,
            r.message_spec() == context@ + e.detail@,
    {
        let message = String::from_str(context).concat(e.detail.as_str());
        if e.not_found {
            FileError::NotFound(message)
        } else {
            FileError::Io(message)
        }
    }

    /// The error for a scan whose worker failed, with the worker's description.
    pub fn task_failed(detail: &str) -> (r: FileError)
        ensures
            r is TaskFailure,
            r.message_spec() == "Task failed: "@ + detail@,
    {
        FileError::TaskFailure(String::from_str("Task failed: ").concat(detail))
    }
}

} // verus!

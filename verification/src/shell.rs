//! The error vocabulary of the external command runner.  Running a command —
//! spawning, feeding stdin, collecting output — happens outside this crate;
//! the typed failures it can report are modelled here so that the
//! supervisor's decision logic can speak about them.

use vstd::prelude::*;

verus! {

/// Why running an external command failed.  Failures carry the text of the
/// underlying error where one exists.
#[derive(Debug)]
pub enum ShellErrorEnum {
    /// The binary was not found on the search path.
    BinaryNotFound(String),
    /// The process could not be spawned.
    SpawnFailed(String),
    /// Writing the provided stdin bytes failed.
    WritingToStdinFailed(String),
    /// The command ran but exited with the given non-zero status code
    /// (`None` when it was ended by a signal); the captured stderr follows.
    UnexpectedExitCode(Option<i32>, String),
    /// Reading the command's output failed.
    IOFailed(String),
    /// The command's output was not UTF-8 text.
    InvalidUTF8Output,
}

/// A failure of the external command runner.
#[derive(Debug)]
pub struct ShellError {
    pub enu: ShellErrorEnum,
}

impl ShellError {
    /// Wraps a failure kind.
    pub fn new(enu: ShellErrorEnum) -> (r: ShellError)
        ensures
            r.enu == enu,
    {
        ShellError { enu }
    }
}

} // verus!

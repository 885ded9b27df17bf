//! External-tool invocations, and the action/event protocol between the
//! orchestration core and the embedding runtime.
//!
//! The core never touches the operating system. It emits [`Action`] values;
//! the runtime performs each one (spawning the process on a worker thread and
//! handing the single result back over a one-shot channel, writing or removing
//! a file) and answers with the matching [`Event`].

use vstd::prelude::*;

verus! {

/// An ordered argument sequence plus an executable name; constructed fresh
/// per call, immutable once built, never persisted.
pub struct CmdInvocation {
    /// The program to execute.
    pub program: String,
    /// Its arguments, handed to a process-spawn interface as a vector, so no
    /// shell ever re-parses them.
    pub args: Vec<String>,
}

/// What running an external process came to.
pub struct ExecOutcome {
    /// The process could be spawned at all.
    pub started: bool,
    /// The process exited with a success status; meaningful only when
    /// `started`.
    pub exit_ok: bool,
    /// Captured standard output, lossily decoded.
    pub stdout: String,
    /// Captured standard error, lossily decoded.
    pub stderr: String,
}

/// One thing the embedding runtime is asked to do next.
pub enum Action {
    /// Run the program to completion and capture its outcome.
    Run(CmdInvocation),
    /// Write `contents` to a new file at `path`.
    WriteFile { path: String, contents: String },
    /// Report whether a file exists at `path`.
    CheckFile { path: String },
    /// Remove the file at `path`.
    RemoveFile { path: String },
}

/// The runtime's answer to the action it was asked to perform.
pub enum Event {
    /// Answers [`Action::Run`].
    Ran(ExecOutcome),
    /// Answers [`Action::WriteFile`]; `ok` is false on an I/O failure.
    Wrote { ok: bool },
    /// Answers [`Action::CheckFile`].
    Checked { exists: bool },
    /// Answers [`Action::RemoveFile`]; `ok` is false on an I/O failure.
    Removed { ok: bool },
}

/// Whether an event is of the kind that answers the given action.
pub open spec fn spec_answers(e: Event, a: Action) -> bool {
    match a {
        Action::Run(_) => e is Ran,
        Action::WriteFile { .. } => e is Wrote,
        Action::CheckFile { .. } => e is Checked,
        Action::RemoveFile { .. } => e is Removed,
    }
}

} // verus!

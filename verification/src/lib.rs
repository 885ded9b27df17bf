//! Print-job orchestration core.
//!
//! This library plans and validates everything a document-printing service
//! decides on its own: building external-tool invocations (an HTML renderer,
//! a print-dispatch helper, spooler queries, a download utility), allocating
//! collision-resistant temporary file names, and sequencing each operation so
//! that intermediate artifacts are cleaned up on every exit path.
//!
//! The library itself performs no I/O. Each operation is a small state
//! machine: it hands the embedding runtime an [`invoke::Action`] (run this
//! command, write this file, remove this file), the runtime performs it and
//! answers with an [`invoke::Event`], and the machine decides the next step.
//! The contracts pin down exactly which invocations are built and that every
//! temporary file the machine asked to create is asked to be removed again.

pub mod dispatch;
pub mod errors;
pub mod fetch;
pub mod html;
pub mod invoke;
pub mod numerals;
pub mod options;
pub mod render;
pub mod spooler;
pub mod temp;
pub mod text;

use vstd::prelude::*;

verus! {

/// Whether the host platform offers an OS print subsystem.
///
/// Injected by the embedding runtime at startup; operations invoked on an
/// unsupported platform refuse immediately instead of building invocations.
#[derive(Clone, Copy, PartialEq, Eq, Structural, Debug)]
pub enum PlatformSupport {
    Supported,
    Unsupported,
}

} // verus!

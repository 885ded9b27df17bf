//! The failure taxonomy of the orchestration core, and its rendering into the
//! single human-readable result string that operations hand back.

use vstd::prelude::*;

verus! {

/// Everything that can go wrong inside a print operation.
///
/// Every internal step reports one of these; at the operation boundary the
/// error is rendered into a single descriptive message by [`result_message`].
/// External-tool diagnostics are carried verbatim, since they are the most
/// useful signal available.
#[derive(PartialEq, Eq, Debug)]
pub enum PrintError {
    /// The HTML content or the URL was empty or whitespace-only.
    EmptyInput,
    /// The external rendering tool is not discoverable.
    ToolUnavailable,
    /// A temporary file could not be written or removed.
    IoFailure,
    /// The renderer exited abnormally or produced no output file; carries the
    /// captured standard output and standard error of the renderer run.
    RenderFailed { stdout: String, stderr: String },
    /// The download utility could not be started or exited abnormally.
    DownloadFailed { stderr: String },
    /// The download utility reported success but the output file is missing.
    FileNotProduced,
    /// The dispatch helper could not be started or exited abnormally.
    DispatchFailed { stderr: String },
    /// The operation was invoked on a platform without OS printer support.
    UnsupportedPlatform,
}

/// The message text for an error, as a sequence of characters.
pub open spec fn spec_error_message(e: PrintError) -> Seq<char> {
    match e {
        PrintError::EmptyInput => "print failed: the input is empty"@,
        PrintError::ToolUnavailable => "print failed: the rendering tool is not available"@,
        PrintError::IoFailure => "print failed: a temporary file could not be written"@,
        PrintError::RenderFailed { stdout, stderr } => "print failed: rendering failed: "@
            + stderr@ + " / "@ + stdout@,
        PrintError::DownloadFailed { stderr } => "print failed: download failed: "@ + stderr@,
        PrintError::FileNotProduced => "print failed: the download produced no file"@,
        PrintError::DispatchFailed { stderr } => "print failed: dispatch failed: "@ + stderr@,
        PrintError::UnsupportedPlatform => "Unsupported OS"@,
    }
}

/// The single result string an operation returns: the payload on success,
/// the rendered error message on failure.
pub open spec fn spec_result_message(r: Result<String, PrintError>) -> Seq<char> {
    match r {
        Ok(payload) => payload@,
        Err(e) => spec_error_message(e),
    }
}

impl PrintError {
    /// Renders the error as the human-readable message of the operation.
    pub fn message(&self) -> (r: String)
        ensures
            r@ == spec_error_message(*self),
    {
        match self {
            PrintError::EmptyInput => String::from_str("print failed: the input is empty"),
            PrintError::ToolUnavailable => String::from_str(
                "print failed: the rendering tool is not available",
            ),
            PrintError::IoFailure => String::from_str(
                "print failed: a temporary file could not be written",
            ),
            PrintError::RenderFailed { stdout, stderr } => {
                let mut m = String::from_str("print failed: rendering failed: ");
                m.append(stderr.as_str());
                m.append(" / ");
                m.append(stdout.as_str());
                m
            },
            PrintError::DownloadFailed { stderr } => {
                let mut m = String::from_str("print failed: download failed: ");
                m.append(stderr.as_str());
                m
            },
            PrintError::FileNotProduced => String::from_str(
                "print failed: the download produced no file",
            ),
            PrintError::DispatchFailed { stderr } => {
                let mut m = String::from_str("print failed: dispatch failed: ");
                m.append(stderr.as_str());
                m
            },
            PrintError::UnsupportedPlatform => String::from_str("Unsupported OS"),
        }
    }
}

/// Renders an operation's outcome into its single result string.
pub fn result_message(r: &Result<String, PrintError>) -> (m: String)
    ensures
        m@ == spec_result_message(*r),
{
    match r {
        Ok(payload) => payload.clone(),
        Err(e) => e.message(),
    }
}

} // verus!

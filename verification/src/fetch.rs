//! The remote fetcher: download a PDF from a URL into a temporary file with a
//! timeout, verify the download, and hand the file to the print dispatcher.
//!
//! Success of the download step needs both a clean exit of the download
//! utility and the destination file existing afterwards — a non-zero exit is
//! often accompanied by a partially written file that must not be mistaken
//! for success, so on a failed download the partial file is removed before
//! the error is reported. A single timeout-bounded attempt either succeeds or
//! fails; there is no retry.

use vstd::prelude::*;

use crate::PlatformSupport;
use crate::dispatch::{dispatch_args, spec_dispatch_args, spec_matches_dispatch_result};
use crate::errors::PrintError;
use crate::invoke::{Action, CmdInvocation, Event};
use crate::numerals::{decimal_string, spec_decimal};
use crate::options::PrintPdfUrlOptions;
use crate::temp::{TempContext, spec_helper_path, spec_temp_file_path};
use crate::text::{contains, ends_with, is_blank, spec_blank, spec_contains, spec_ends_with,
    spec_lower_of, to_lowercase};

verus! {

/// The shell-level script that downloads `url` to `path` with a timeout of
/// `timeout` seconds, echoing a fixed success line.
pub open spec fn spec_download_script(url: Seq<char>, path: Seq<char>, timeout: nat) -> Seq<char> {
    "try { $ProgressPreference = 'SilentlyContinue'; Invoke-WebRequest -Uri '"@ + url
        + "' -OutFile '"@ + path + "' -TimeoutSec "@ + spec_decimal(timeout)
        + " -UseBasicParsing; Write-Output 'Download completed successfully' } catch { Write-Error $_.Exception.Message }"@
}

/// Whether a URL plausibly points at a PDF: it ends in `.pdf` in any letter
/// case, or mentions `pdf` anywhere. The heuristic only warns; it never
/// rejects.
pub open spec fn spec_url_looks_like_pdf(url: Seq<char>) -> bool {
    spec_ends_with(spec_lower_of(url), ".pdf"@) || spec_contains(url, "pdf"@)
}

/// Whether the request asks for the downloaded PDF's removal after dispatch.
pub open spec fn spec_url_remove_flag(o: PrintPdfUrlOptions) -> bool {
    o.remove_after_print == Some(true)
}

/// The download timeout of a request: the given seconds, or the 30s default.
pub open spec fn spec_url_timeout(o: PrintPdfUrlOptions) -> u64 {
    match o.timeout_seconds {
        Some(t) => t,
        None => 30u64,
    }
}

/// Whether a URL plausibly points at a PDF.
pub fn url_looks_like_pdf(url: &str) -> (b: bool)
    ensures
        b == spec_url_looks_like_pdf(url@),
{
    let lower = to_lowercase(url);
    ends_with(lower.as_str(), ".pdf") || contains(url, "pdf")
}

/// Builds the invocation that downloads `url` into `path`.
pub fn download_invocation(url: &str, path: &str, timeout: u64) -> (inv: CmdInvocation)
    ensures
        inv.program@ == "powershell"@,
        inv.args.deep_view() == seq![
            "-Command"@,
            spec_download_script(url@, path@, timeout as nat),
        ],
{
    let mut script = String::from_str(
        "try { $ProgressPreference = 'SilentlyContinue'; Invoke-WebRequest -Uri '",
    );
    script.append(url);
    script.append("' -OutFile '");
    script.append(path);
    script.append("' -TimeoutSec ");
    let timeout_text = decimal_string(timeout);
    script.append(timeout_text.as_str());
    script.append(
        " -UseBasicParsing; Write-Output 'Download completed successfully' } catch { Write-Error $_.Exception.Message }",
    );
    let program = String::from_str("powershell");
    let mut args: Vec<String> = Vec::new();
    args.push(String::from_str("-Command"));
    args.push(script);
    proof {
        assert(args.deep_view() =~= seq![
            "-Command"@,
            spec_download_script(url@, path@, timeout as nat),
        ]);
    }
    CmdInvocation { program, args }
}

/// Where a print-PDF-from-URL session stands.
pub enum UrlPhase {
    /// The download invocation is to be run.
    Download,
    /// The downloaded file's existence is to be checked.
    VerifyPdf,
    /// The download failed; its partial output file is to be removed so no
    /// temporary is left behind, and `err` reported afterwards.
    CleanupFailed { err: PrintError },
    /// The helper is to dispatch the downloaded PDF.
    Dispatch,
    /// The downloaded PDF is to be removed (the request asked for that);
    /// `pending` is the conclusion to report afterwards.
    RemovePdf { pending: Result<String, PrintError> },
    /// The session is over.
    Done { result: Result<String, PrintError> },
}

/// A print-PDF-from-URL operation, step by step.
///
/// The embedding runtime performs [`Self::next_action`] and answers through
/// [`Self::step`] until the session is done.
pub struct UrlPrintSession {
    /// The request this session serves.
    pub options: PrintPdfUrlOptions,
    /// The temporary file the download goes to.
    pub pdf_path: String,
    /// The installed helper's path.
    pub helper: String,
    /// The download timeout in seconds.
    pub timeout: u64,
    /// Whether the URL failed the looks-like-a-PDF heuristic; the runtime may
    /// log a warning, the session proceeds regardless.
    pub warned: bool,
    /// Where the session stands.
    pub phase: UrlPhase,
    /// Whether the download run has completed (successfully or not).
    pub download_completed: bool,
    /// Whether the helper run has completed (successfully or not).
    pub dispatch_completed: bool,
    /// Whether the session has asked for the partial file's removal after a
    /// failed download.
    pub cleanup_requested: bool,
    /// Whether the session has asked for the PDF's removal after dispatch.
    pub pdf_remove_requested: bool,
}

impl UrlPrintSession {
    /// The session invariant. Among what it carries: a failed download ends
    /// with its partial file's removal requested and no dispatch ever run,
    /// and the PDF's post-dispatch removal is asked if and only if dispatch
    /// completed and the request's removal flag is set.
    pub open spec fn wf(self) -> bool {
        &&& (self.phase is Download ==> !self.download_completed && !self.dispatch_completed
            && !self.cleanup_requested && !self.pdf_remove_requested)
        &&& (self.phase is VerifyPdf ==> self.download_completed && !self.dispatch_completed
            && !self.cleanup_requested && !self.pdf_remove_requested)
        &&& (self.phase matches UrlPhase::CleanupFailed { err } ==> (self.download_completed
            && !self.dispatch_completed && !self.cleanup_requested && !self.pdf_remove_requested
            && err is DownloadFailed))
        &&& (self.phase is Dispatch ==> self.download_completed && !self.dispatch_completed
            && !self.cleanup_requested && !self.pdf_remove_requested)
        &&& (self.phase matches UrlPhase::RemovePdf { pending } ==> (self.download_completed
            && self.dispatch_completed && !self.cleanup_requested && !self.pdf_remove_requested
            && spec_url_remove_flag(self.options) && !(pending matches Err(e) && (
        e is UnsupportedPlatform || e is EmptyInput || e is DownloadFailed
            || e is FileNotProduced))))
        &&& (self.phase matches UrlPhase::Done { result } ==> {
            &&& (self.pdf_remove_requested <==> (self.dispatch_completed && spec_url_remove_flag(
                self.options,
            )))
            &&& result is Ok ==> (self.download_completed && self.dispatch_completed)
            &&& (result matches Err(e) && e is DownloadFailed) ==> (self.cleanup_requested
                && !self.dispatch_completed)
            &&& result == Err::<String, PrintError>(PrintError::FileNotProduced) ==> (
            self.download_completed && !self.dispatch_completed && !self.pdf_remove_requested)
            &&& result == Err::<String, PrintError>(PrintError::EmptyInput) ==> (
            !self.download_completed && !self.dispatch_completed && !self.cleanup_requested
                && !self.pdf_remove_requested)
            &&& result == Err::<String, PrintError>(PrintError::UnsupportedPlatform) ==> (
            !self.download_completed && !self.dispatch_completed && !self.cleanup_requested
                && !self.pdf_remove_requested)
        })
        &&& (spec_blank(self.options.url@) ==> (self.phase is Done && !self.download_completed
            && !self.dispatch_completed && !self.cleanup_requested && !self.pdf_remove_requested))
    }

    /// Whether the session is over.
    pub open spec fn spec_done(self) -> bool {
        self.phase is Done
    }

    /// Whether the session is over.
    pub fn is_done(&self) -> (b: bool)
        ensures
            b == self.spec_done(),
    {
        match self.phase {
            UrlPhase::Done { .. } => true,
            _ => false,
        }
    }

    /// Which events the session can take next.
    pub open spec fn accepts(self, e: Event) -> bool {
        match self.phase {
            UrlPhase::Download => e is Ran,
            UrlPhase::VerifyPdf => e is Checked,
            UrlPhase::CleanupFailed { .. } => e is Removed,
            UrlPhase::Dispatch => e is Ran,
            UrlPhase::RemovePdf { .. } => e is Removed,
            UrlPhase::Done { .. } => false,
        }
    }

    /// What the runtime is to do next: download, verify, dispatch, and remove
    /// what must not be left behind.
    pub fn next_action(&self) -> (a: Action)
        requires
            !self.spec_done(),
        ensures
            self.phase is Download ==> (a matches Action::Run(inv) && inv.program@
                == "powershell"@ && inv.args.deep_view() == seq![
                "-Command"@,
                spec_download_script(self.options.url@, self.pdf_path@, self.timeout as nat),
            ]),
            self.phase is VerifyPdf ==> (a matches Action::CheckFile { path } && path@
                == self.pdf_path@),
            self.phase is CleanupFailed ==> (a matches Action::RemoveFile { path } && path@
                == self.pdf_path@),
            self.phase is Dispatch ==> (a matches Action::Run(inv) && inv.program@ == self.helper@
                && inv.args.deep_view() == spec_dispatch_args(
                self.options.printer@,
                self.options.print_settings@,
                self.pdf_path@,
            )),
            self.phase is RemovePdf ==> (a matches Action::RemoveFile { path } && path@
                == self.pdf_path@),
            forall|e: Event| #[trigger] self.accepts(e) == crate::invoke::spec_answers(e, a),
    {
        match &self.phase {
            UrlPhase::Download => Action::Run(
                download_invocation(self.options.url.as_str(), self.pdf_path.as_str(), self.timeout),
            ),
            UrlPhase::VerifyPdf => Action::CheckFile { path: self.pdf_path.clone() },
            UrlPhase::CleanupFailed { .. } => Action::RemoveFile { path: self.pdf_path.clone() },
            UrlPhase::Dispatch => {
                let args = dispatch_args(
                    self.options.printer.as_str(),
                    self.options.print_settings.as_str(),
                    self.pdf_path.as_str(),
                );
                Action::Run(CmdInvocation { program: self.helper.clone(), args })
            },
            UrlPhase::RemovePdf { .. } => Action::RemoveFile { path: self.pdf_path.clone() },
            UrlPhase::Done { .. } => unreached(),
        }
    }

    /// Takes the runtime's answer and moves the session forward.
    pub fn step(self, e: Event) -> (s: Self)
        requires
            !self.spec_done(),
            self.accepts(e),
            self.wf(),
        ensures
            s.wf(),
            s.options == self.options,
            s.pdf_path == self.pdf_path,
            s.helper == self.helper,
            s.timeout == self.timeout,
            s.warned == self.warned,
            self.phase is Download ==> (e matches Event::Ran(o) && s.download_completed && (
            if o.started && o.exit_ok {
                s.phase is VerifyPdf
            } else {
                s.phase matches UrlPhase::CleanupFailed { err } && (err
                    matches PrintError::DownloadFailed { stderr } && stderr@ == o.stderr@)
            })),
            self.phase is VerifyPdf ==> (e matches Event::Checked { exists } && (if exists {
                s.phase is Dispatch
            } else {
                s.phase == (UrlPhase::Done {
                    result: Err::<String, PrintError>(PrintError::FileNotProduced),
                })
            })),
            self.phase matches UrlPhase::CleanupFailed { err } ==> (s.phase == (UrlPhase::Done {
                result: Err::<String, PrintError>(err),
            }) && s.cleanup_requested),
            self.phase is Dispatch ==> (e matches Event::Ran(o) && s.dispatch_completed && (
            if spec_url_remove_flag(self.options) {
                s.phase matches UrlPhase::RemovePdf { pending } && spec_matches_dispatch_result(
                    pending,
                    o,
                )
            } else {
                s.phase matches UrlPhase::Done { result } && spec_matches_dispatch_result(
                    result,
                    o,
                )
            })),
            self.phase matches UrlPhase::RemovePdf { pending } ==> (s.phase == (UrlPhase::Done {
                result: pending,
            }) && s.pdf_remove_requested),
    {
        let UrlPrintSession {
            options,
            pdf_path,
            helper,
            timeout,
            warned,
            phase,
            download_completed,
            dispatch_completed,
            cleanup_requested,
            pdf_remove_requested,
        } = self;
        match (phase, e) {
            (UrlPhase::Download, Event::Ran(o)) => {
                let phase = if o.started && o.exit_ok {
                    UrlPhase::VerifyPdf
                } else {
                    UrlPhase::CleanupFailed {
                        err: PrintError::DownloadFailed { stderr: o.stderr },
                    }
                };
                UrlPrintSession {
                    options,
                    pdf_path,
                    helper,
                    timeout,
                    warned,
                    phase,
                    download_completed: true,
                    dispatch_completed,
                    cleanup_requested,
                    pdf_remove_requested,
                }
            },
            (UrlPhase::VerifyPdf, Event::Checked { exists }) => {
                let phase = if exists {
                    UrlPhase::Dispatch
                } else {
                    UrlPhase::Done { result: Err(PrintError::FileNotProduced) }
                };
                UrlPrintSession {
                    options,
                    pdf_path,
                    helper,
                    timeout,
                    warned,
                    phase,
                    download_completed,
                    dispatch_completed,
                    cleanup_requested,
                    pdf_remove_requested,
                }
            },
            (UrlPhase::CleanupFailed { err }, Event::Removed { .. }) => UrlPrintSession {
                options,
                pdf_path,
                helper,
                timeout,
                warned,
                phase: UrlPhase::Done { result: Err(err) },
                download_completed,
                dispatch_completed,
                cleanup_requested: true,
                pdf_remove_requested,
            },
            (UrlPhase::Dispatch, Event::Ran(o)) => {
                let conclusion: Result<String, PrintError> = if o.started && o.exit_ok {
                    Ok(o.stdout)
                } else {
                    Err(PrintError::DispatchFailed { stderr: o.stderr })
                };
                let remove = match options.remove_after_print {
                    Some(true) => true,
                    _ => false,
                };
                let phase = if remove {
                    UrlPhase::RemovePdf { pending: conclusion }
                } else {
                    UrlPhase::Done { result: conclusion }
                };
                UrlPrintSession {
                    options,
                    pdf_path,
                    helper,
                    timeout,
                    warned,
                    phase,
                    download_completed,
                    dispatch_completed: true,
                    cleanup_requested,
                    pdf_remove_requested,
                }
            },
            (UrlPhase::RemovePdf { pending }, Event::Removed { .. }) => UrlPrintSession {
                options,
                pdf_path,
                helper,
                timeout,
                warned,
                phase: UrlPhase::Done { result: pending },
                download_completed,
                dispatch_completed,
                cleanup_requested,
                pdf_remove_requested: true,
            },
            (_, _) => unreached(),
        }
    }

    /// The session's conclusion.
    pub fn result(&self) -> (r: &Result<String, PrintError>)
        requires
            self.spec_done(),
        ensures
            self.phase == (UrlPhase::Done { result: *r }),
    {
        match &self.phase {
            UrlPhase::Done { result } => result,
            _ => unreached(),
        }
    }
}

/// Starts a print-PDF-from-URL operation: a blank URL fails with `EmptyInput`
/// at once; a URL that does not look like a PDF is only warned about, never
/// rejected. `stamp` is the caller's fresh nanosecond timestamp for the
/// download's temporary file.
pub fn print_pdf_from_url(
    options: PrintPdfUrlOptions,
    ctx: &TempContext,
    stamp: u64,
    support: PlatformSupport,
) -> (s: UrlPrintSession)
    ensures
        s.wf(),
        s.options == options,
        s.pdf_path@ == spec_temp_file_path(ctx.temp_dir@, ctx.pid as nat, stamp as nat, "pdf"@),
        s.helper@ == spec_helper_path(ctx.temp_dir@),
        s.timeout == spec_url_timeout(options),
        s.warned == !spec_url_looks_like_pdf(options.url@),
        support is Unsupported ==> s.phase == (UrlPhase::Done {
            result: Err::<String, PrintError>(PrintError::UnsupportedPlatform),
        }),
        support is Supported && spec_blank(options.url@) ==> s.phase == (UrlPhase::Done {
            result: Err::<String, PrintError>(PrintError::EmptyInput),
        }),
        support is Supported && !spec_blank(options.url@) ==> s.phase is Download,
        !s.download_completed && !s.dispatch_completed && !s.cleanup_requested
            && !s.pdf_remove_requested,
{
    let pdf_path = ctx.allocate(stamp, "pdf");
    let helper = ctx.helper_path();
    let timeout = match options.timeout_seconds {
        Some(t) => t,
        None => 30,
    };
    let warned = !url_looks_like_pdf(options.url.as_str());
    let phase = match support {
        PlatformSupport::Unsupported => UrlPhase::Done {
            result: Err(PrintError::UnsupportedPlatform),
        },
        PlatformSupport::Supported => {
            if is_blank(options.url.as_str()) {
                UrlPhase::Done { result: Err(PrintError::EmptyInput) }
            } else {
                UrlPhase::Download
            }
        },
    };
    UrlPrintSession {
        options,
        pdf_path,
        helper,
        timeout,
        warned,
        phase,
        download_completed: false,
        dispatch_completed: false,
        cleanup_requested: false,
        pdf_remove_requested: false,
    }
}

/// A failed download leaves nothing behind: once the session is done with a
/// `DownloadFailed` conclusion, removal of the partial output file was
/// requested and no print dispatch ever ran.
pub proof fn lemma_download_failure_clean(s: UrlPrintSession)
    requires
        s.wf(),
        s.spec_done(),
    ensures
        (s.phase matches UrlPhase::Done { result } && result matches Err(e)
            && e is DownloadFailed) ==> (s.cleanup_requested && !s.dispatch_completed
            && !s.pdf_remove_requested),
{
}

/// The downloaded PDF's removal policy: once the session is done, removal of
/// the PDF after dispatch was requested if and only if dispatch completed and
/// the request carried `remove_after_print = true`.
pub proof fn lemma_url_removal_policy(s: UrlPrintSession)
    requires
        s.wf(),
        s.spec_done(),
    ensures
        s.pdf_remove_requested <==> (s.dispatch_completed && spec_url_remove_flag(s.options)),
{
}

} // verus!

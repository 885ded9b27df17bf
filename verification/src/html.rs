//! The HTML print operation: render HTML to a PDF through the external
//! rendering tool, dispatch the PDF to a printer, and clean up every
//! temporary artifact on every exit path.
//!
//! The session validates the content and probes for the renderer before any
//! temporary file is written, so a missing dependency leaves no orphaned
//! artifacts. Once the HTML temporary file has been written, every path to
//! the session's end — render failure, missing output, dispatch failure or
//! success — first asks the runtime to remove it again.

use vstd::prelude::*;

use crate::PlatformSupport;
use crate::dispatch::{
    dispatch_args, spec_dispatch_args, spec_matches_dispatch_result,
};
use crate::errors::PrintError;
use crate::invoke::{Action, CmdInvocation, Event};
use crate::options::PrintHtmlOptions;
use crate::render::{render_invocation, renderer_probe, spec_render_args};
use crate::temp::{TempContext, spec_helper_path, spec_temp_file_path};
use crate::text::{is_blank, spec_blank};

verus! {

/// Whether the request asks for the rendered PDF's removal after dispatch.
pub open spec fn spec_html_remove_flag(o: PrintHtmlOptions) -> bool {
    o.remove_after_print == Some(true)
}

/// Where an HTML print session stands.
pub enum HtmlPhase {
    /// The renderer is to be probed for its version.
    Probe,
    /// The HTML content is to be written to its temporary file.
    WriteHtml,
    /// The renderer is to be run.
    Render,
    /// The destination PDF's existence is to be checked; the renderer run's
    /// captured output is kept for diagnostics.
    VerifyPdf { stdout: String, stderr: String },
    /// The helper is to dispatch the PDF.
    Dispatch,
    /// The rendered PDF is to be removed (the request asked for that);
    /// `pending` is the conclusion to report afterwards.
    RemovePdf { pending: Result<String, PrintError> },
    /// The intermediate HTML file is to be removed; `pending` is the
    /// conclusion to report afterwards.
    RemoveHtml { pending: Result<String, PrintError> },
    /// The session is over.
    Done { result: Result<String, PrintError> },
}

/// A print-HTML operation, step by step.
///
/// The embedding runtime performs [`Self::next_action`] and answers through
/// [`Self::step`] until the session is done.
pub struct HtmlPrintSession {
    /// The request this session serves.
    pub options: PrintHtmlOptions,
    /// The temporary file the HTML content goes to.
    pub html_path: String,
    /// The temporary file the renderer writes the PDF to.
    pub pdf_path: String,
    /// The installed helper's path.
    pub helper: String,
    /// Where the session stands.
    pub phase: HtmlPhase,
    /// Whether the HTML temporary file has been written.
    pub wrote_html: bool,
    /// Whether the helper run has completed (successfully or not).
    pub dispatch_completed: bool,
    /// Whether the session has asked the runtime to remove the HTML file.
    pub html_remove_requested: bool,
    /// Whether the session has asked the runtime to remove the PDF.
    pub pdf_remove_requested: bool,
}

/// Whether a pending conclusion is one a running HTML session can carry.
pub open spec fn spec_carriable(pending: Result<String, PrintError>) -> bool {
    !(pending matches Err(e) && (e is UnsupportedPlatform || e is EmptyInput))
}

impl HtmlPrintSession {
    /// The session invariant. Among what it carries across every path: once
    /// the HTML temporary file was written, the session cannot end without
    /// having asked for its removal; the PDF's removal is asked if and only
    /// if dispatch completed and the request's removal flag is set; and a
    /// blank request ends the session before any file action is issued.
    pub open spec fn wf(self) -> bool {
        &&& (self.phase is Probe ==> !self.wrote_html && !self.dispatch_completed
            && !self.html_remove_requested && !self.pdf_remove_requested)
        &&& (self.phase is WriteHtml ==> !self.wrote_html && !self.dispatch_completed
            && !self.html_remove_requested && !self.pdf_remove_requested)
        &&& (self.phase is Render ==> self.wrote_html && !self.dispatch_completed
            && !self.html_remove_requested && !self.pdf_remove_requested)
        &&& (self.phase is VerifyPdf ==> self.wrote_html && !self.dispatch_completed
            && !self.html_remove_requested && !self.pdf_remove_requested)
        &&& (self.phase is Dispatch ==> self.wrote_html && !self.dispatch_completed
            && !self.html_remove_requested && !self.pdf_remove_requested)
        &&& (self.phase matches HtmlPhase::RemovePdf { pending } ==> (self.wrote_html
            && self.dispatch_completed && !self.html_remove_requested
            && !self.pdf_remove_requested && spec_html_remove_flag(self.options)
            && spec_carriable(pending)))
        &&& (self.phase matches HtmlPhase::RemoveHtml { pending } ==> (self.wrote_html
            && !self.html_remove_requested && (self.pdf_remove_requested <==> (
        self.dispatch_completed && spec_html_remove_flag(self.options))) && spec_carriable(pending)
            && (pending is Ok ==> self.dispatch_completed)))
        &&& (self.phase matches HtmlPhase::Done { result } ==> {
            &&& self.wrote_html ==> self.html_remove_requested
            &&& result is Ok ==> (self.wrote_html && self.dispatch_completed)
            &&& (self.pdf_remove_requested <==> (self.dispatch_completed && spec_html_remove_flag(
                self.options,
            )))
            &&& result == Err::<String, PrintError>(PrintError::EmptyInput) ==> (!self.wrote_html
                && !self.dispatch_completed && !self.html_remove_requested
                && !self.pdf_remove_requested)
            &&& result == Err::<String, PrintError>(PrintError::UnsupportedPlatform) ==> (
            !self.wrote_html && !self.dispatch_completed && !self.html_remove_requested
                && !self.pdf_remove_requested)
        })
        &&& (spec_blank(self.options.html@) ==> (self.phase is Done && !self.wrote_html
            && !self.dispatch_completed && !self.html_remove_requested
            && !self.pdf_remove_requested))
    }

    /// Whether the session is over.
    pub open spec fn spec_done(self) -> bool {
        self.phase is Done
    }

    /// Whether the session is over.
    pub fn is_done(&self) -> (b: bool)
        ensures
            b == self.spec_done(),
    {
        match self.phase {
            HtmlPhase::Done { .. } => true,
            _ => false,
        }
    }

    /// Which events the session can take next.
    pub open spec fn accepts(self, e: Event) -> bool {
        match self.phase {
            HtmlPhase::Probe => e is Ran,
            HtmlPhase::WriteHtml => e is Wrote,
            HtmlPhase::Render => e is Ran,
            HtmlPhase::VerifyPdf { .. } => e is Checked,
            HtmlPhase::Dispatch => e is Ran,
            HtmlPhase::RemovePdf { .. } => e is Removed,
            HtmlPhase::RemoveHtml { .. } => e is Removed,
            HtmlPhase::Done { .. } => false,
        }
    }

    /// What the runtime is to do next: probe the renderer, write the HTML,
    /// render, verify the output, dispatch it, and remove what the session
    /// created.
    pub fn next_action(&self) -> (a: Action)
        requires
            !self.spec_done(),
        ensures
            self.phase is Probe ==> (a matches Action::Run(inv) && inv.program@ == "wkhtmltopdf"@
                && inv.args.deep_view() == seq!["--version"@]),
            self.phase is WriteHtml ==> (a matches Action::WriteFile { path, contents } && path@
                == self.html_path@ && contents@ == self.options.html@),
            self.phase is Render ==> (a matches Action::Run(inv) && inv.program@ == "wkhtmltopdf"@
                && inv.args.deep_view() == spec_render_args(
                self.options,
                self.html_path@,
                self.pdf_path@,
            )),
            self.phase is VerifyPdf ==> (a matches Action::CheckFile { path } && path@
                == self.pdf_path@),
            self.phase is Dispatch ==> (a matches Action::Run(inv) && inv.program@ == self.helper@
                && inv.args.deep_view() == spec_dispatch_args(
                self.options.printer@,
                self.options.print_settings@,
                self.pdf_path@,
            )),
            self.phase is RemovePdf ==> (a matches Action::RemoveFile { path } && path@
                == self.pdf_path@),
            self.phase is RemoveHtml ==> (a matches Action::RemoveFile { path } && path@
                == self.html_path@),
            forall|e: Event| #[trigger] self.accepts(e) == crate::invoke::spec_answers(e, a),
    {
        match &self.phase {
            HtmlPhase::Probe => Action::Run(renderer_probe()),
            HtmlPhase::WriteHtml => Action::WriteFile {
                path: self.html_path.clone(),
                contents: self.options.html.clone(),
            },
            HtmlPhase::Render => Action::Run(
                render_invocation(&self.options, self.html_path.as_str(), self.pdf_path.as_str()),
            ),
            HtmlPhase::VerifyPdf { .. } => Action::CheckFile { path: self.pdf_path.clone() },
            HtmlPhase::Dispatch => {
                let args = dispatch_args(
                    self.options.printer.as_str(),
                    self.options.print_settings.as_str(),
                    self.pdf_path.as_str(),
                );
                Action::Run(CmdInvocation { program: self.helper.clone(), args })
            },
            HtmlPhase::RemovePdf { .. } => Action::RemoveFile { path: self.pdf_path.clone() },
            HtmlPhase::RemoveHtml { .. } => Action::RemoveFile { path: self.html_path.clone() },
            HtmlPhase::Done { .. } => unreached(),
        }
    }

    /// Takes the runtime's answer and moves the session forward.
    pub fn step(self, e: Event) -> (s: Self)
        requires
            !self.spec_done(),
            self.accepts(e),
            self.wf(),
        ensures
            s.wf(),
            s.options == self.options,
            s.html_path == self.html_path,
            s.pdf_path == self.pdf_path,
            s.helper == self.helper,
            self.phase is Probe ==> (e matches Event::Ran(o) && (if o.started && o.exit_ok {
                s.phase is WriteHtml
            } else {
                s.phase == (HtmlPhase::Done {
                    result: Err::<String, PrintError>(PrintError::ToolUnavailable),
                })
            })),
            self.phase is WriteHtml ==> (e matches Event::Wrote { ok } && (if ok {
                s.phase is Render && s.wrote_html
            } else {
                s.phase == (HtmlPhase::Done {
                    result: Err::<String, PrintError>(PrintError::IoFailure),
                }) && !s.wrote_html
            })),
            self.phase is Render ==> (e matches Event::Ran(o) && (if o.started && o.exit_ok {
                s.phase == (HtmlPhase::VerifyPdf { stdout: o.stdout, stderr: o.stderr })
            } else {
                s.phase == (HtmlPhase::RemoveHtml {
                    pending: Err::<String, PrintError>(
                        PrintError::RenderFailed { stdout: o.stdout, stderr: o.stderr },
                    ),
                })
            })),
            self.phase matches HtmlPhase::VerifyPdf { stdout, stderr } ==> (e matches Event::Checked {
                exists,
            } && (if exists {
                s.phase is Dispatch
            } else {
                s.phase == (HtmlPhase::RemoveHtml {
                    pending: Err::<String, PrintError>(
                        PrintError::RenderFailed { stdout, stderr },
                    ),
                })
            })),
            self.phase is Dispatch ==> (e matches Event::Ran(o) && s.dispatch_completed && (
            if spec_html_remove_flag(self.options) {
                s.phase matches HtmlPhase::RemovePdf { pending } && spec_matches_dispatch_result(
                    pending,
                    o,
                )
            } else {
                s.phase matches HtmlPhase::RemoveHtml { pending } && spec_matches_dispatch_result(
                    pending,
                    o,
                )
            })),
            self.phase matches HtmlPhase::RemovePdf { pending } ==> (s.phase
                == (HtmlPhase::RemoveHtml { pending }) && s.pdf_remove_requested),
            self.phase matches HtmlPhase::RemoveHtml { pending } ==> (s.phase == (HtmlPhase::Done {
                result: pending,
            }) && s.html_remove_requested),
    {
        let HtmlPrintSession {
            options,
            html_path,
            pdf_path,
            helper,
            phase,
            wrote_html,
            dispatch_completed,
            html_remove_requested,
            pdf_remove_requested,
        } = self;
        match (phase, e) {
            (HtmlPhase::Probe, Event::Ran(o)) => {
                let phase = if o.started && o.exit_ok {
                    HtmlPhase::WriteHtml
                } else {
                    HtmlPhase::Done { result: Err(PrintError::ToolUnavailable) }
                };
                HtmlPrintSession {
                    options,
                    html_path,
                    pdf_path,
                    helper,
                    phase,
                    wrote_html,
                    dispatch_completed,
                    html_remove_requested,
                    pdf_remove_requested,
                }
            },
            (HtmlPhase::WriteHtml, Event::Wrote { ok }) => {
                let phase = if ok {
                    HtmlPhase::Render
                } else {
                    HtmlPhase::Done { result: Err(PrintError::IoFailure) }
                };
                HtmlPrintSession {
                    options,
                    html_path,
                    pdf_path,
                    helper,
                    phase,
                    wrote_html: ok,
                    dispatch_completed,
                    html_remove_requested,
                    pdf_remove_requested,
                }
            },
            (HtmlPhase::Render, Event::Ran(o)) => {
                let phase = if o.started && o.exit_ok {
                    HtmlPhase::VerifyPdf { stdout: o.stdout, stderr: o.stderr }
                } else {
                    HtmlPhase::RemoveHtml {
                        pending: Err(
                            PrintError::RenderFailed { stdout: o.stdout, stderr: o.stderr },
                        ),
                    }
                };
                HtmlPrintSession {
                    options,
                    html_path,
                    pdf_path,
                    helper,
                    phase,
                    wrote_html,
                    dispatch_completed,
                    html_remove_requested,
                    pdf_remove_requested,
                }
            },
            (HtmlPhase::VerifyPdf { stdout, stderr }, Event::Checked { exists }) => {
                let phase = if exists {
                    HtmlPhase::Dispatch
                } else {
                    HtmlPhase::RemoveHtml {
                        pending: Err(PrintError::RenderFailed { stdout, stderr }),
                    }
                };
                HtmlPrintSession {
                    options,
                    html_path,
                    pdf_path,
                    helper,
                    phase,
                    wrote_html,
                    dispatch_completed,
                    html_remove_requested,
                    pdf_remove_requested,
                }
            },
            (HtmlPhase::Dispatch, Event::Ran(o)) => {
                let conclusion: Result<String, PrintError> = if o.started && o.exit_ok {
                    Ok(o.stdout)
                } else {
                    Err(PrintError::DispatchFailed { stderr: o.stderr })
                };
                let remove = match options.remove_after_print {
                    Some(true) => true,
                    _ => false,
                };
                let phase = if remove {
                    HtmlPhase::RemovePdf { pending: conclusion }
                } else {
                    HtmlPhase::RemoveHtml { pending: conclusion }
                };
                HtmlPrintSession {
                    options,
                    html_path,
                    pdf_path,
                    helper,
                    phase,
                    wrote_html,
                    dispatch_completed: true,
                    html_remove_requested,
                    pdf_remove_requested,
                }
            },
            (HtmlPhase::RemovePdf { pending }, Event::Removed { .. }) => HtmlPrintSession {
                options,
                html_path,
                pdf_path,
                helper,
                phase: HtmlPhase::RemoveHtml { pending },
                wrote_html,
                dispatch_completed,
                html_remove_requested,
                pdf_remove_requested: true,
            },
            (HtmlPhase::RemoveHtml { pending }, Event::Removed { .. }) => HtmlPrintSession {
                options,
                html_path,
                pdf_path,
                helper,
                phase: HtmlPhase::Done { result: pending },
                wrote_html,
                dispatch_completed,
                html_remove_requested: true,
                pdf_remove_requested,
            },
            (_, _) => unreached(),
        }
    }

    /// The session's conclusion.
    pub fn result(&self) -> (r: &Result<String, PrintError>)
        requires
            self.spec_done(),
        ensures
            self.phase == (HtmlPhase::Done { result: *r }),
    {
        match &self.phase {
            HtmlPhase::Done { result } => result,
            _ => unreached(),
        }
    }
}

/// Starts a print-HTML operation. The content is validated and the renderer
/// probed before any temporary file is written: a blank request fails with
/// `EmptyInput` at once, with the filesystem untouched.
///
/// `html_stamp` and `pdf_stamp` are the caller's fresh nanosecond timestamps
/// for the two temporary files.
pub fn print_html(
    options: PrintHtmlOptions,
    ctx: &TempContext,
    html_stamp: u64,
    pdf_stamp: u64,
    support: PlatformSupport,
) -> (s: HtmlPrintSession)
    ensures
        s.wf(),
        s.options == options,
        s.html_path@ == spec_temp_file_path(
            ctx.temp_dir@,
            ctx.pid as nat,
            html_stamp as nat,
            "html"@,
        ),
        s.pdf_path@ == spec_temp_file_path(ctx.temp_dir@, ctx.pid as nat, pdf_stamp as nat, "pdf"@),
        s.helper@ == spec_helper_path(ctx.temp_dir@),
        support is Unsupported ==> s.phase == (HtmlPhase::Done {
            result: Err::<String, PrintError>(PrintError::UnsupportedPlatform),
        }),
        support is Supported && spec_blank(options.html@) ==> s.phase == (HtmlPhase::Done {
            result: Err::<String, PrintError>(PrintError::EmptyInput),
        }),
        support is Supported && !spec_blank(options.html@) ==> s.phase is Probe,
        !s.wrote_html && !s.dispatch_completed && !s.html_remove_requested
            && !s.pdf_remove_requested,
{
    let html_path = ctx.allocate(html_stamp, "html");
    let pdf_path = ctx.allocate(pdf_stamp, "pdf");
    let helper = ctx.helper_path();
    let phase = match support {
        PlatformSupport::Unsupported => HtmlPhase::Done {
            result: Err(PrintError::UnsupportedPlatform),
        },
        PlatformSupport::Supported => {
            if is_blank(options.html.as_str()) {
                HtmlPhase::Done { result: Err(PrintError::EmptyInput) }
            } else {
                HtmlPhase::Probe
            }
        },
    };
    HtmlPrintSession {
        options,
        html_path,
        pdf_path,
        helper,
        phase,
        wrote_html: false,
        dispatch_completed: false,
        html_remove_requested: false,
        pdf_remove_requested: false,
    }
}

/// Every HTML print that wrote its intermediate HTML file asks for that
/// file's removal before it ends — in particular, by the time a successful
/// operation returns, the intermediate HTML temporary file no longer exists.
pub proof fn lemma_html_cleanup(s: HtmlPrintSession)
    requires
        s.wf(),
        s.spec_done(),
    ensures
        s.wrote_html ==> s.html_remove_requested,
        (s.phase matches HtmlPhase::Done { result } && result is Ok) ==> (s.wrote_html
            && s.html_remove_requested && s.dispatch_completed),
{
}

/// A blank HTML request never touches the filesystem: the session is over
/// before any write, dispatch or removal is asked of the runtime.
pub proof fn lemma_blank_input_touches_nothing(s: HtmlPrintSession)
    requires
        s.wf(),
        spec_blank(s.options.html@),
    ensures
        s.spec_done(),
        !s.wrote_html,
        !s.dispatch_completed,
        !s.html_remove_requested,
        !s.pdf_remove_requested,
{
}

/// The rendered PDF's removal policy: once an HTML print session is done,
/// removal of the PDF was requested if and only if dispatch completed and the
/// request carried `remove_after_print = true`.
pub proof fn lemma_pdf_removal_policy(s: HtmlPrintSession)
    requires
        s.wf(),
        s.spec_done(),
    ensures
        s.pdf_remove_requested <==> (s.dispatch_completed && spec_html_remove_flag(s.options)),
{
}

} // verus!

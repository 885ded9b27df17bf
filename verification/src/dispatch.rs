//! The print dispatcher: sends a printable document to a printer through the
//! bundled helper executable, in silent mode, and removes the document
//! afterwards when the request asks for that.
//!
//! A dispatch is a two-step session: run the helper, then — whatever the
//! helper's outcome — remove the source document if and only if the request's
//! removal flag is set. The helper's captured standard output is the
//! operation's result string.

use vstd::prelude::*;

use crate::PlatformSupport;
use crate::errors::PrintError;
use crate::invoke::{Action, CmdInvocation, Event, ExecOutcome};
use crate::options::PrintOptions;
use crate::temp::{TempContext, spec_helper_path};
use crate::text::str_eq;

verus! {

/// Whether a printer name means the system default printer.
pub open spec fn spec_printer_is_default(printer: Seq<char>) -> bool {
    printer.len() == 0 || printer == "default"@
}

/// The helper's argument list: default-printer silent print when no printer
/// is named; named-printer silent print when a printer is named without
/// settings; named-printer print with explicit settings when both are given.
pub open spec fn spec_dispatch_args(
    printer: Seq<char>,
    settings: Seq<char>,
    path: Seq<char>,
) -> Seq<Seq<char>> {
    if spec_printer_is_default(printer) {
        seq!["-print-to-default"@, "-silent"@, path]
    } else if settings.len() == 0 {
        seq!["-print-to"@, printer, "-silent"@, path]
    } else {
        seq!["-print-to"@, printer, "-print-settings"@, settings, "-silent"@, path]
    }
}

/// Whether `inv` is the helper invocation that dispatches `path` under
/// `temp_dir`'s installed helper.
pub open spec fn spec_is_dispatch_invocation(
    inv: CmdInvocation,
    temp_dir: Seq<char>,
    printer: Seq<char>,
    settings: Seq<char>,
    path: Seq<char>,
) -> bool {
    &&& inv.program@ == spec_helper_path(temp_dir)
    &&& inv.args.deep_view() == spec_dispatch_args(printer, settings, path)
}

/// Whether the request asks for the document's removal after dispatch.
pub open spec fn spec_remove_flag(o: PrintOptions) -> bool {
    o.remove_after_print == Some(true)
}

/// How a dispatch run concludes: the helper's standard output on success, a
/// `DispatchFailed` carrying the helper's standard error when the helper
/// could not be started or exited abnormally.
pub open spec fn spec_matches_dispatch_result(
    r: Result<String, PrintError>,
    outcome: ExecOutcome,
) -> bool {
    if outcome.started && outcome.exit_ok {
        r matches Ok(s) && s@ == outcome.stdout@
    } else {
        r matches Err(e) && (e matches PrintError::DispatchFailed { stderr } && stderr@
            == outcome.stderr@)
    }
}

/// Builds the helper's argument list for one document.
pub(crate) fn dispatch_args(printer: &str, settings: &str, path: &str) -> (args: Vec<String>)
    ensures
        args.deep_view() == spec_dispatch_args(printer@, settings@, path@),
{
    let mut args: Vec<String> = Vec::new();
    if printer.is_empty() || str_eq(printer, "default") {
        args.push(String::from_str("-print-to-default"));
        args.push(String::from_str("-silent"));
        args.push(path.to_owned());
        proof {
            assert(args.deep_view() =~= spec_dispatch_args(printer@, settings@, path@));
        }
    } else if settings.is_empty() {
        args.push(String::from_str("-print-to"));
        args.push(printer.to_owned());
        args.push(String::from_str("-silent"));
        args.push(path.to_owned());
        proof {
            assert(args.deep_view() =~= spec_dispatch_args(printer@, settings@, path@));
        }
    } else {
        args.push(String::from_str("-print-to"));
        args.push(printer.to_owned());
        args.push(String::from_str("-print-settings"));
        args.push(settings.to_owned());
        args.push(String::from_str("-silent"));
        args.push(path.to_owned());
        proof {
            assert(args.deep_view() =~= spec_dispatch_args(printer@, settings@, path@));
        }
    }
    args
}

/// Builds the helper invocation for one document.
pub fn dispatch_invocation(ctx: &TempContext, printer: &str, settings: &str, path: &str) -> (inv:
    CmdInvocation)
    ensures
        spec_is_dispatch_invocation(inv, ctx.temp_dir@, printer@, settings@, path@),
{
    let program = ctx.helper_path();
    let args = dispatch_args(printer, settings, path);
    CmdInvocation { program, args }
}

/// Where a dispatch session stands.
pub enum PdfPhase {
    /// The helper invocation is to be run.
    Dispatch,
    /// The helper has run; the source document is to be removed; `pending`
    /// is the conclusion to report afterwards.
    Cleanup { pending: Result<String, PrintError> },
    /// The session is over.
    Done { result: Result<String, PrintError> },
}

/// A print-PDF operation, step by step.
///
/// The embedding runtime performs [`Self::next_action`] and answers through
/// [`Self::step`] until the session is done.
pub struct PdfPrintSession {
    /// The request this session serves.
    pub options: PrintOptions,
    /// The installed helper's path.
    pub helper: String,
    /// Where the session stands.
    pub phase: PdfPhase,
    /// Whether the helper run has completed (successfully or not).
    pub dispatch_completed: bool,
    /// Whether the session has asked the runtime to remove the document.
    pub removal_requested: bool,
}

impl PdfPrintSession {
    /// The session invariant. Once the session is done: removal of the
    /// source document was requested if and only if the dispatch step
    /// completed and the request's removal flag was set.
    pub open spec fn wf(self) -> bool {
        &&& (self.phase is Dispatch ==> !self.dispatch_completed && !self.removal_requested)
        &&& (self.phase is Cleanup ==> self.dispatch_completed && !self.removal_requested
            && spec_remove_flag(self.options))
        &&& (self.phase matches PdfPhase::Cleanup { pending } ==> !(pending matches Err(e)
            && e is UnsupportedPlatform))
        &&& (self.phase is Done ==> (self.removal_requested <==> (self.dispatch_completed
            && spec_remove_flag(self.options))))
        &&& (self.phase matches PdfPhase::Done { result } ==> ((result matches Err(e)
            && e is UnsupportedPlatform) <==> !self.dispatch_completed))
    }

    /// Whether the session is over.
    pub open spec fn spec_done(self) -> bool {
        self.phase is Done
    }

    /// Whether the session is over.
    pub fn is_done(&self) -> (b: bool)
        ensures
            b == self.spec_done(),
    {
        match self.phase {
            PdfPhase::Done { .. } => true,
            _ => false,
        }
    }

    /// Which events the session can take next.
    pub open spec fn accepts(self, e: Event) -> bool {
        match self.phase {
            PdfPhase::Dispatch => e is Ran,
            PdfPhase::Cleanup { .. } => e is Removed,
            PdfPhase::Done { .. } => false,
        }
    }

    /// What the runtime is to do next: run the helper, then remove the
    /// document when the request asks for that.
    pub fn next_action(&self) -> (a: Action)
        requires
            !self.spec_done(),
        ensures
            self.phase is Dispatch ==> (a matches Action::Run(inv) && inv.program@ == self.helper@
                && inv.args.deep_view() == spec_dispatch_args(
                self.options.printer@,
                self.options.print_settings@,
                self.options.path@,
            )),
            self.phase is Cleanup ==> (a matches Action::RemoveFile { path } && path@
                == self.options.path@),
            forall|e: Event| #[trigger] self.accepts(e) == crate::invoke::spec_answers(e, a),
    {
        match &self.phase {
            PdfPhase::Dispatch => {
                let args = dispatch_args(
                    self.options.printer.as_str(),
                    self.options.print_settings.as_str(),
                    self.options.path.as_str(),
                );
                Action::Run(CmdInvocation { program: self.helper.clone(), args })
            },
            PdfPhase::Cleanup { .. } => Action::RemoveFile { path: self.options.path.clone() },
            PdfPhase::Done { .. } => unreached(),
        }
    }

    /// Takes the runtime's answer and moves the session forward.
    pub fn step(self, e: Event) -> (s: Self)
        requires
            !self.spec_done(),
            self.accepts(e),
            self.wf(),
        ensures
            s.wf(),
            s.options == self.options,
            s.helper == self.helper,
            e matches Event::Ran(o) ==> {
                &&& s.dispatch_completed
                &&& !spec_remove_flag(self.options) ==> (s.phase matches PdfPhase::Done { result }
                    && spec_matches_dispatch_result(result, o))
                &&& spec_remove_flag(self.options) ==> (s.phase matches PdfPhase::Cleanup {
                    pending,
                } && spec_matches_dispatch_result(pending, o))
                &&& !s.removal_requested
            },
            self.phase matches PdfPhase::Cleanup { pending } ==> {
                &&& s.phase == (PdfPhase::Done { result: pending })
                &&& s.removal_requested
                &&& s.dispatch_completed
            },
    {
        let PdfPrintSession { options, helper, phase, dispatch_completed, removal_requested } =
            self;
        match (phase, e) {
            (PdfPhase::Dispatch, Event::Ran(o)) => {
                let conclusion: Result<String, PrintError> = if o.started && o.exit_ok {
                    Ok(o.stdout)
                } else {
                    Err(PrintError::DispatchFailed { stderr: o.stderr })
                };
                let remove = match options.remove_after_print {
                    Some(true) => true,
                    _ => false,
                };
                if remove {
                    PdfPrintSession {
                        options,
                        helper,
                        phase: PdfPhase::Cleanup { pending: conclusion },
                        dispatch_completed: true,
                        removal_requested: false,
                    }
                } else {
                    PdfPrintSession {
                        options,
                        helper,
                        phase: PdfPhase::Done { result: conclusion },
                        dispatch_completed: true,
                        removal_requested: false,
                    }
                }
            },
            (PdfPhase::Cleanup { pending }, Event::Removed { .. }) => PdfPrintSession {
                options,
                helper,
                phase: PdfPhase::Done { result: pending },
                dispatch_completed,
                removal_requested: true,
            },
            (_, _) => unreached(),
        }
    }

    /// The session's conclusion.
    pub fn result(&self) -> (r: &Result<String, PrintError>)
        requires
            self.spec_done(),
        ensures
            self.phase == (PdfPhase::Done { result: *r }),
    {
        match &self.phase {
            PdfPhase::Done { result } => result,
            _ => unreached(),
        }
    }
}

/// Starts a print-PDF operation: dispatch on a supported platform, an
/// immediate `UnsupportedPlatform` refusal on any other.
pub fn print_pdf(options: PrintOptions, ctx: &TempContext, support: PlatformSupport) -> (s:
    PdfPrintSession)
    ensures
        s.wf(),
        s.options == options,
        s.helper@ == spec_helper_path(ctx.temp_dir@),
        support is Supported ==> s.phase is Dispatch,
        support is Unsupported ==> s.phase == (PdfPhase::Done {
            result: Err::<String, PrintError>(PrintError::UnsupportedPlatform),
        }),
{
    let helper = ctx.helper_path();
    match support {
        PlatformSupport::Supported => PdfPrintSession {
            options,
            helper,
            phase: PdfPhase::Dispatch,
            dispatch_completed: false,
            removal_requested: false,
        },
        PlatformSupport::Unsupported => PdfPrintSession {
            options,
            helper,
            phase: PdfPhase::Done { result: Err(PrintError::UnsupportedPlatform) },
            dispatch_completed: false,
            removal_requested: false,
        },
    }
}

/// Starts a print-PDF operation from the flat request shape: the caller's
/// identifier names the target printer, and the removal flag is always
/// explicit.
pub fn custom_print_pdf(
    id: String,
    path: String,
    printer_setting: String,
    remove_after_print: bool,
    ctx: &TempContext,
    support: PlatformSupport,
) -> (s: PdfPrintSession)
    ensures
        s.wf(),
        s.options.id@ == id@,
        s.options.path == path,
        s.options.printer == id,
        s.options.print_settings == printer_setting,
        s.options.remove_after_print == Some(remove_after_print),
        s.helper@ == spec_helper_path(ctx.temp_dir@),
        support is Supported ==> s.phase is Dispatch,
        support is Unsupported ==> s.phase == (PdfPhase::Done {
            result: Err::<String, PrintError>(PrintError::UnsupportedPlatform),
        }),
{
    let options = PrintOptions {
        id: id.clone(),
        path,
        printer: id,
        print_settings: printer_setting,
        remove_after_print: Some(remove_after_print),
    };
    print_pdf(options, ctx, support)
}

/// The removal policy of every print operation: by the time a session is
/// done, removal of the source document was requested if and only if the
/// dispatch step completed — successfully or not — and the request carried
/// `remove_after_print = true`; with the flag unset or false, removal was
/// never requested and the document still exists.
pub proof fn lemma_removal_policy(s: PdfPrintSession)
    requires
        s.wf(),
        s.spec_done(),
    ensures
        s.removal_requested <==> (s.dispatch_completed && spec_remove_flag(s.options)),
        !spec_remove_flag(s.options) ==> !s.removal_requested,
{
}

} // verus!

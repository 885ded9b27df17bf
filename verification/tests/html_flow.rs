use printer::PlatformSupport;
use printer::errors::{PrintError, result_message};
use printer::html::{HtmlPrintSession, print_html};
use printer::invoke::{Action, Event, ExecOutcome};
use printer::options::PrintHtmlOptions;
use printer::temp::TempContext;

fn ctx() -> TempContext {
    TempContext { temp_dir: "/tmp/".to_string(), pid: 7 }
}

fn html_options(html: &str) -> PrintHtmlOptions {
    PrintHtmlOptions {
        id: "job".to_string(),
        html: html.to_string(),
        printer: "".to_string(),
        print_settings: "".to_string(),
        remove_after_print: None,
        page_size: None,
        orientation: None,
        margin: None,
        quality: None,
        grayscale: None,
        copies: None,
        page_width: None,
        page_height: None,
    }
}

fn ok_run(stdout: &str) -> Event {
    Event::Ran(ExecOutcome {
        started: true,
        exit_ok: true,
        stdout: stdout.to_string(),
        stderr: "".to_string(),
    })
}

fn failed_run(stdout: &str, stderr: &str) -> Event {
    Event::Ran(ExecOutcome {
        started: true,
        exit_ok: false,
        stdout: stdout.to_string(),
        stderr: stderr.to_string(),
    })
}

fn start(html: &str) -> HtmlPrintSession {
    print_html(html_options(html), &ctx(), 1, 2, PlatformSupport::Supported)
}

#[test]
fn empty_html_fails_with_empty_input_and_touches_nothing() {
    let session = start("");
    assert!(session.is_done());
    assert_eq!(session.result(), &Err(PrintError::EmptyInput));
    assert!(!session.wrote_html);
    assert!(!session.dispatch_completed);
    assert!(!session.html_remove_requested);
    assert!(!session.pdf_remove_requested);
    assert_eq!(result_message(session.result()), "print failed: the input is empty".to_string());
}

#[test]
fn whitespace_only_html_fails_with_empty_input() {
    let session = start(" \t\r\n  ");
    assert!(session.is_done());
    assert_eq!(session.result(), &Err(PrintError::EmptyInput));
    assert!(!session.wrote_html);
}

#[test]
fn html_print_default_options_runs_the_full_pipeline() {
    let session = start("<html><body>Hi</body></html>");

    // The renderer is probed before anything is written.
    match session.next_action() {
        Action::Run(inv) => {
            assert_eq!(inv.program, "wkhtmltopdf");
            let expect: Vec<String> = vec!["--version".to_string()];
            assert_eq!(inv.args, expect);
        },
        _ => panic!("expected the version probe"),
    }
    let session = session.step(ok_run("wkhtmltopdf 0.12.6"));

    // The HTML content goes to its temporary file.
    match session.next_action() {
        Action::WriteFile { path, contents } => {
            assert_eq!(path, "/tmp/printer_job_7_1.html");
            assert_eq!(contents, "<html><body>Hi</body></html>");
        },
        _ => panic!("expected the HTML write"),
    }
    let session = session.step(Event::Wrote { ok: true });

    // The renderer runs with A4, Portrait and 10mm margins on all sides.
    match session.next_action() {
        Action::Run(inv) => {
            assert_eq!(inv.program, "wkhtmltopdf");
            let expect: Vec<String> = vec![
                "--encoding".to_string(),
                "UTF-8".to_string(),
                "--enable-local-file-access".to_string(),
                "--disable-smart-shrinking".to_string(),
                "--print-media-type".to_string(),
                "--no-pdf-compression".to_string(),
                "--load-error-handling".to_string(),
                "ignore".to_string(),
                "--load-media-error-handling".to_string(),
                "ignore".to_string(),
                "--margin-top".to_string(),
                "10mm".to_string(),
                "--margin-right".to_string(),
                "10mm".to_string(),
                "--margin-bottom".to_string(),
                "10mm".to_string(),
                "--margin-left".to_string(),
                "10mm".to_string(),
                "--page-size".to_string(),
                "A4".to_string(),
                "--orientation".to_string(),
                "Portrait".to_string(),
                "/tmp/printer_job_7_1.html".to_string(),
                "/tmp/printer_job_7_2.pdf".to_string(),
            ];
            assert_eq!(inv.args, expect);
        },
        _ => panic!("expected the render run"),
    }
    let session = session.step(ok_run(""));

    // The destination PDF's existence is verified.
    match session.next_action() {
        Action::CheckFile { path } => assert_eq!(path, "/tmp/printer_job_7_2.pdf"),
        _ => panic!("expected the output check"),
    }
    let session = session.step(Event::Checked { exists: true });

    // Dispatch goes to the default printer, silently.
    match session.next_action() {
        Action::Run(inv) => {
            assert_eq!(inv.program, "/tmp/sm.exe");
            let expect: Vec<String> = vec![
                "-print-to-default".to_string(),
                "-silent".to_string(),
                "/tmp/printer_job_7_2.pdf".to_string(),
            ];
            assert_eq!(inv.args, expect);
        },
        _ => panic!("expected the dispatch run"),
    }
    let session = session.step(ok_run("1 page sent to default printer"));

    // The intermediate HTML file is removed before the session ends.
    match session.next_action() {
        Action::RemoveFile { path } => assert_eq!(path, "/tmp/printer_job_7_1.html"),
        _ => panic!("expected the HTML cleanup"),
    }
    let session = session.step(Event::Removed { ok: true });

    assert!(session.is_done());
    assert_eq!(session.result(), &Ok("1 page sent to default printer".to_string()));
    assert!(session.html_remove_requested);
    assert!(!session.pdf_remove_requested);
    assert_eq!(
        result_message(session.result()),
        "1 page sent to default printer".to_string()
    );
}

#[test]
fn render_failure_still_cleans_up_the_html_file() {
    let session = start("<p>x</p>");
    let session = session.step(ok_run("version"));
    let session = session.step(Event::Wrote { ok: true });
    let session = session.step(failed_run("partial out", "renderer exploded"));
    match session.next_action() {
        Action::RemoveFile { path } => assert_eq!(path, "/tmp/printer_job_7_1.html"),
        _ => panic!("expected the HTML cleanup"),
    }
    let session = session.step(Event::Removed { ok: true });
    assert!(session.is_done());
    assert!(session.html_remove_requested);
    assert!(!session.dispatch_completed);
    assert_eq!(
        session.result(),
        &Err(PrintError::RenderFailed {
            stdout: "partial out".to_string(),
            stderr: "renderer exploded".to_string(),
        })
    );
    assert_eq!(
        result_message(session.result()),
        "print failed: rendering failed: renderer exploded / partial out".to_string()
    );
}

#[test]
fn missing_output_pdf_is_a_render_failure() {
    let session = start("<p>x</p>");
    let session = session.step(ok_run("version"));
    let session = session.step(Event::Wrote { ok: true });
    let session = session.step(ok_run("rendered fine"));
    let session = session.step(Event::Checked { exists: false });
    match session.next_action() {
        Action::RemoveFile { path } => assert_eq!(path, "/tmp/printer_job_7_1.html"),
        _ => panic!("expected the HTML cleanup"),
    }
    let session = session.step(Event::Removed { ok: true });
    assert!(session.is_done());
    assert!(matches!(session.result(), Err(PrintError::RenderFailed { .. })));
}

#[test]
fn unavailable_renderer_fails_before_any_write() {
    let session = start("<p>x</p>");
    let session = session.step(Event::Ran(ExecOutcome {
        started: false,
        exit_ok: false,
        stdout: "".to_string(),
        stderr: "".to_string(),
    }));
    assert!(session.is_done());
    assert_eq!(session.result(), &Err(PrintError::ToolUnavailable));
    assert!(!session.wrote_html);
    assert!(!session.html_remove_requested);
}

#[test]
fn failed_html_write_reports_an_io_failure() {
    let session = start("<p>x</p>");
    let session = session.step(ok_run("version"));
    let session = session.step(Event::Wrote { ok: false });
    assert!(session.is_done());
    assert_eq!(session.result(), &Err(PrintError::IoFailure));
}

#[test]
fn html_removal_flag_removes_the_pdf_before_the_html() {
    let mut options = html_options("<p>x</p>");
    options.remove_after_print = Some(true);
    options.printer = "P1".to_string();
    let session = print_html(options, &ctx(), 1, 2, PlatformSupport::Supported);
    let session = session.step(ok_run("version"));
    let session = session.step(Event::Wrote { ok: true });
    let session = session.step(ok_run(""));
    let session = session.step(Event::Checked { exists: true });
    let session = session.step(ok_run("printed"));
    match session.next_action() {
        Action::RemoveFile { path } => assert_eq!(path, "/tmp/printer_job_7_2.pdf"),
        _ => panic!("expected the PDF cleanup"),
    }
    let session = session.step(Event::Removed { ok: true });
    match session.next_action() {
        Action::RemoveFile { path } => assert_eq!(path, "/tmp/printer_job_7_1.html"),
        _ => panic!("expected the HTML cleanup"),
    }
    let session = session.step(Event::Removed { ok: true });
    assert!(session.is_done());
    assert!(session.pdf_remove_requested);
    assert!(session.html_remove_requested);
    assert_eq!(session.result(), &Ok("printed".to_string()));
}

#[test]
fn html_removal_flag_holds_even_when_dispatch_fails() {
    let mut options = html_options("<p>x</p>");
    options.remove_after_print = Some(true);
    let session = print_html(options, &ctx(), 1, 2, PlatformSupport::Supported);
    let session = session.step(ok_run("version"));
    let session = session.step(Event::Wrote { ok: true });
    let session = session.step(ok_run(""));
    let session = session.step(Event::Checked { exists: true });
    let session = session.step(failed_run("", "out of paper"));
    match session.next_action() {
        Action::RemoveFile { path } => assert_eq!(path, "/tmp/printer_job_7_2.pdf"),
        _ => panic!("expected the PDF cleanup"),
    }
    let session = session.step(Event::Removed { ok: true });
    let session = session.step(Event::Removed { ok: true });
    assert!(session.is_done());
    assert!(session.pdf_remove_requested);
    assert!(session.html_remove_requested);
    assert_eq!(
        session.result(),
        &Err(PrintError::DispatchFailed { stderr: "out of paper".to_string() })
    );
}

#[test]
fn unsupported_platform_refuses_html_print() {
    let session = print_html(html_options("<p>x</p>"), &ctx(), 1, 2, PlatformSupport::Unsupported);
    assert!(session.is_done());
    assert_eq!(session.result(), &Err(PrintError::UnsupportedPlatform));
}

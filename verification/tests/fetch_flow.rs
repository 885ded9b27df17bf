use printer::PlatformSupport;
use printer::errors::{PrintError, result_message};
use printer::fetch::{UrlPrintSession, download_invocation, print_pdf_from_url, url_looks_like_pdf};
use printer::invoke::{Action, Event, ExecOutcome};
use printer::options::PrintPdfUrlOptions;
use printer::temp::TempContext;

fn ctx() -> TempContext {
    TempContext { temp_dir: "/tmp/".to_string(), pid: 7 }
}

fn url_options(url: &str, timeout: Option<u64>, remove: Option<bool>) -> PrintPdfUrlOptions {
    PrintPdfUrlOptions {
        id: "job".to_string(),
        url: url.to_string(),
        printer: "".to_string(),
        print_settings: "".to_string(),
        remove_after_print: remove,
        timeout_seconds: timeout,
        temp_dir: None,
    }
}

fn start(url: &str, timeout: Option<u64>) -> UrlPrintSession {
    print_pdf_from_url(url_options(url, timeout, None), &ctx(), 3, PlatformSupport::Supported)
}

#[test]
fn download_invocation_embeds_url_path_and_timeout() {
    let inv = download_invocation("http://x/a.pdf", "/tmp/a.pdf", 5);
    assert_eq!(inv.program, "powershell");
    assert_eq!(inv.args.len(), 2);
    assert_eq!(inv.args[0], "-Command");
    let expect = "try { $ProgressPreference = 'SilentlyContinue'; Invoke-WebRequest \
                  -Uri 'http://x/a.pdf' -OutFile '/tmp/a.pdf' -TimeoutSec 5 -UseBasicParsing; \
                  Write-Output 'Download completed successfully' } catch { Write-Error \
                  $_.Exception.Message }";
    assert_eq!(inv.args[1], expect);
}

#[test]
fn failed_download_cleans_up_and_never_dispatches() {
    let session = start("http://x/not-a-pdf", Some(5));
    match session.next_action() {
        Action::Run(inv) => {
            assert_eq!(inv.program, "powershell");
            assert!(inv.args[1].contains("-TimeoutSec 5"));
            assert!(inv.args[1].contains("'http://x/not-a-pdf'"));
            assert!(inv.args[1].contains("'/tmp/printer_job_7_3.pdf'"));
        },
        _ => panic!("expected the download run"),
    }
    let session = session.step(Event::Ran(ExecOutcome {
        started: true,
        exit_ok: false,
        stdout: "".to_string(),
        stderr: "404 not found".to_string(),
    }));
    // The partial download is removed so no temporary PDF is left behind.
    match session.next_action() {
        Action::RemoveFile { path } => assert_eq!(path, "/tmp/printer_job_7_3.pdf"),
        _ => panic!("expected the cleanup of the partial download"),
    }
    let session = session.step(Event::Removed { ok: true });
    assert!(session.is_done());
    assert!(session.cleanup_requested);
    assert!(!session.dispatch_completed);
    assert!(!session.pdf_remove_requested);
    assert_eq!(
        session.result(),
        &Err(PrintError::DownloadFailed { stderr: "404 not found".to_string() })
    );
    assert_eq!(
        result_message(session.result()),
        "print failed: download failed: 404 not found".to_string()
    );
}

#[test]
fn successful_download_dispatches_and_returns_helper_output() {
    let session = start("http://x/report.pdf", None);
    assert_eq!(session.timeout, 30);
    assert!(!session.warned);
    let session = session.step(Event::Ran(ExecOutcome {
        started: true,
        exit_ok: true,
        stdout: "Download completed successfully".to_string(),
        stderr: "".to_string(),
    }));
    match session.next_action() {
        Action::CheckFile { path } => assert_eq!(path, "/tmp/printer_job_7_3.pdf"),
        _ => panic!("expected the download check"),
    }
    let session = session.step(Event::Checked { exists: true });
    match session.next_action() {
        Action::Run(inv) => {
            assert_eq!(inv.program, "/tmp/sm.exe");
            let expect: Vec<String> = vec![
                "-print-to-default".to_string(),
                "-silent".to_string(),
                "/tmp/printer_job_7_3.pdf".to_string(),
            ];
            assert_eq!(inv.args, expect);
        },
        _ => panic!("expected the dispatch run"),
    }
    let session = session.step(Event::Ran(ExecOutcome {
        started: true,
        exit_ok: true,
        stdout: "sent".to_string(),
        stderr: "".to_string(),
    }));
    assert!(session.is_done());
    assert_eq!(session.result(), &Ok("sent".to_string()));
}

#[test]
fn clean_exit_without_a_file_is_file_not_produced() {
    let session = start("http://x/report.pdf", None);
    let session = session.step(Event::Ran(ExecOutcome {
        started: true,
        exit_ok: true,
        stdout: "".to_string(),
        stderr: "".to_string(),
    }));
    let session = session.step(Event::Checked { exists: false });
    assert!(session.is_done());
    assert_eq!(session.result(), &Err(PrintError::FileNotProduced));
    assert_eq!(
        result_message(session.result()),
        "print failed: the download produced no file".to_string()
    );
}

#[test]
fn url_removal_flag_removes_the_pdf_after_dispatch() {
    let session = print_pdf_from_url(
        url_options("http://x/report.pdf", None, Some(true)),
        &ctx(),
        3,
        PlatformSupport::Supported,
    );
    let session = session.step(Event::Ran(ExecOutcome {
        started: true,
        exit_ok: true,
        stdout: "".to_string(),
        stderr: "".to_string(),
    }));
    let session = session.step(Event::Checked { exists: true });
    let session = session.step(Event::Ran(ExecOutcome {
        started: true,
        exit_ok: true,
        stdout: "sent".to_string(),
        stderr: "".to_string(),
    }));
    match session.next_action() {
        Action::RemoveFile { path } => assert_eq!(path, "/tmp/printer_job_7_3.pdf"),
        _ => panic!("expected the PDF removal"),
    }
    let session = session.step(Event::Removed { ok: true });
    assert!(session.is_done());
    assert!(session.pdf_remove_requested);
    assert_eq!(session.result(), &Ok("sent".to_string()));
}

#[test]
fn empty_url_fails_with_empty_input() {
    let session = start("  \t ", None);
    assert!(session.is_done());
    assert_eq!(session.result(), &Err(PrintError::EmptyInput));
    assert!(!session.download_completed);
}

#[test]
fn unsupported_platform_refuses_url_print() {
    let session = print_pdf_from_url(
        url_options("http://x/report.pdf", None, None),
        &ctx(),
        3,
        PlatformSupport::Unsupported,
    );
    assert!(session.is_done());
    assert_eq!(result_message(session.result()), "Unsupported OS".to_string());
}

#[test]
fn upper_case_pdf_suffix_counts_as_a_pdf_url() {
    // Depends on real lower-casing: the raw URL contains no lower-case "pdf".
    assert!(url_looks_like_pdf("HTTP://X/FILE.PDF"));
}

#[test]
fn pdf_heuristic_warns_only_on_unlikely_urls() {
    assert!(url_looks_like_pdf("http://x/report.pdf"));
    assert!(url_looks_like_pdf("http://x/getpdf?id=1"));
    assert!(url_looks_like_pdf("http://x/not-a-pdf"));
    assert!(!url_looks_like_pdf("http://x/document.txt"));
    let session = start("http://x/document.txt", None);
    assert!(session.warned);
}

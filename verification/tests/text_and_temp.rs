use printer::errors::{PrintError, result_message};
use printer::numerals::decimal_string;
use printer::temp::{TempContext, temp_file_name};
use printer::text::{contains, ends_with, is_blank, str_eq, to_lowercase};

#[test]
fn decimal_text_of_small_and_large_numbers() {
    assert_eq!(decimal_string(0), "0");
    assert_eq!(decimal_string(7), "7");
    assert_eq!(decimal_string(30), "30");
    assert_eq!(decimal_string(1234567890), "1234567890");
    assert_eq!(decimal_string(u64::MAX), "18446744073709551615");
}

#[test]
fn temp_file_names_embed_process_and_timestamp() {
    assert_eq!(temp_file_name(42, 99, "html"), "printer_job_42_99.html");
    assert_eq!(temp_file_name(1, 170000000000, "pdf"), "printer_job_1_170000000000.pdf");
}

#[test]
fn distinct_timestamps_give_distinct_names() {
    assert_ne!(temp_file_name(42, 99, "pdf"), temp_file_name(42, 100, "pdf"));
    assert_ne!(temp_file_name(42, 99, "pdf"), temp_file_name(43, 99, "pdf"));
}

#[test]
fn temp_context_allocates_under_its_directory() {
    let ctx = TempContext { temp_dir: "/var/tmp/".to_string(), pid: 5 };
    assert_eq!(ctx.allocate(8, "html"), "/var/tmp/printer_job_5_8.html");
    assert_eq!(ctx.helper_path(), "/var/tmp/sm.exe");
}

#[test]
fn blankness_of_texts() {
    assert!(is_blank(""));
    assert!(is_blank("   "));
    assert!(is_blank(" \t\r\n"));
    assert!(!is_blank(" x "));
    assert!(!is_blank("<html></html>"));
}

#[test]
fn suffix_and_substring_tests() {
    assert!(ends_with("report.pdf", ".pdf"));
    assert!(!ends_with("report.pdfx", ".pdf"));
    assert!(!ends_with("df", ".pdf"));
    assert!(ends_with("anything", ""));
    assert!(contains("not-a-pdf", "pdf"));
    assert!(contains("pdf", "pdf"));
    assert!(!contains("document", "pdf"));
    assert!(contains("abc", ""));
}

#[test]
fn string_equality_by_characters() {
    assert!(str_eq("default", "default"));
    assert!(!str_eq("default", "Default"));
    assert!(!str_eq("default", "default "));
}

#[test]
fn lower_casing_goes_through_the_real_library_call() {
    assert_eq!(to_lowercase("FILE.PDF"), "file.pdf");
    assert_eq!(to_lowercase("MiXeD"), "mixed");
    assert_eq!(to_lowercase(""), "");
}

#[test]
fn error_messages_name_each_failure() {
    assert_eq!(
        result_message(&Err(PrintError::ToolUnavailable)),
        "print failed: the rendering tool is not available"
    );
    assert_eq!(
        result_message(&Err(PrintError::IoFailure)),
        "print failed: a temporary file could not be written"
    );
    assert_eq!(result_message(&Ok("all good".to_string())), "all good");
}

use printer::options::{PrintHtmlOptions, PrintMargin};
use printer::render::build_renderer_args;

fn base_options() -> PrintHtmlOptions {
    PrintHtmlOptions {
        id: "job-1".to_string(),
        html: "<html><body>Hi</body></html>".to_string(),
        printer: "".to_string(),
        print_settings: "".to_string(),
        remove_after_print: None,
        page_size: None,
        orientation: None,
        margin: None,
        quality: None,
        grayscale: None,
        copies: None,
        page_width: None,
        page_height: None,
    }
}

fn strings(items: &[&str]) -> Vec<String> {
    items.iter().map(|s| s.to_string()).collect()
}

#[test]
fn default_options_emit_a4_portrait_and_10mm_margins() {
    let args = build_renderer_args(&base_options(), "/tmp/in.html", "/tmp/out.pdf");
    let expect = strings(&[
        "--encoding",
        "UTF-8",
        "--enable-local-file-access",
        "--disable-smart-shrinking",
        "--print-media-type",
        "--no-pdf-compression",
        "--load-error-handling",
        "ignore",
        "--load-media-error-handling",
        "ignore",
        "--margin-top",
        "10mm",
        "--margin-right",
        "10mm",
        "--margin-bottom",
        "10mm",
        "--margin-left",
        "10mm",
        "--page-size",
        "A4",
        "--orientation",
        "Portrait",
        "/tmp/in.html",
        "/tmp/out.pdf",
    ]);
    assert_eq!(args, expect);
}

#[test]
fn explicit_dimensions_win_over_named_page_size() {
    let mut options = base_options();
    options.page_size = Some("Letter".to_string());
    options.page_width = Some("100".to_string());
    options.page_height = Some("200".to_string());
    let args = build_renderer_args(&options, "a.html", "b.pdf");
    assert!(args.contains(&"--page-width".to_string()));
    assert!(args.contains(&"--page-height".to_string()));
    assert!(args.contains(&"100mm".to_string()));
    assert!(args.contains(&"200mm".to_string()));
    assert!(!args.contains(&"--page-size".to_string()));
    assert!(!args.contains(&"Letter".to_string()));
}

#[test]
fn one_missing_dimension_falls_back_to_named_page_size() {
    let mut options = base_options();
    options.page_size = Some("Letter".to_string());
    options.page_width = Some("100".to_string());
    let args = build_renderer_args(&options, "a.html", "b.pdf");
    assert!(!args.contains(&"--page-width".to_string()));
    assert!(args.contains(&"--page-size".to_string()));
    assert!(args.contains(&"Letter".to_string()));
}

#[test]
fn margin_subset_keeps_defaults_for_unset_sides() {
    let mut options = base_options();
    options.margin = Some(PrintMargin {
        top: Some("5".to_string()),
        right: None,
        bottom: Some("2.5".to_string()),
        left: None,
        unit: Some("cm".to_string()),
    });
    let args = build_renderer_args(&options, "a.html", "b.pdf");
    assert_eq!(args[10], "--margin-top");
    assert_eq!(args[11], "5cm");
    assert_eq!(args[12], "--margin-right");
    assert_eq!(args[13], "10mm");
    assert_eq!(args[14], "--margin-bottom");
    assert_eq!(args[15], "2.5cm");
    assert_eq!(args[16], "--margin-left");
    assert_eq!(args[17], "10mm");
}

#[test]
fn margin_unit_defaults_to_millimetres() {
    let mut options = base_options();
    options.margin = Some(PrintMargin {
        top: Some("3".to_string()),
        right: None,
        bottom: None,
        left: None,
        unit: None,
    });
    let args = build_renderer_args(&options, "a.html", "b.pdf");
    assert_eq!(args[11], "3mm");
    assert_eq!(args[13], "10mm");
}

#[test]
fn orientation_and_page_size_are_taken_from_the_request() {
    let mut options = base_options();
    options.page_size = Some("Letter".to_string());
    options.orientation = Some("Landscape".to_string());
    let args = build_renderer_args(&options, "a.html", "b.pdf");
    assert!(args.contains(&"Letter".to_string()));
    assert!(args.contains(&"Landscape".to_string()));
    assert!(!args.contains(&"A4".to_string()));
    assert!(!args.contains(&"Portrait".to_string()));
}

#[test]
fn source_and_destination_close_the_argument_list() {
    let args = build_renderer_args(&base_options(), "/t/page.html", "/t/page.pdf");
    let n: usize = args.len();
    assert_eq!(args[n - 2], "/t/page.html");
    assert_eq!(args[n - 1], "/t/page.pdf");
}

//! The request shapes of the print operations.
//!
//! Numeric page dimensions and margins are carried as decimal text (for
//! example `"10"` or `"82.5"`), exactly as they are spliced into the
//! renderer's argument list; the embedding runtime formats its numbers before
//! handing a request to the core.

use vstd::prelude::*;

verus! {

/// A request to send a printable document to a printer.
pub struct PrintOptions {
    /// Caller-supplied, opaque job identifier; carried, never interpreted.
    pub id: String,
    /// Path of the document to print.
    pub path: String,
    /// Target printer; empty or `"default"` means the system default printer.
    pub printer: String,
    /// Tool-specific print-settings text; empty means none.
    pub print_settings: String,
    /// Remove the document after dispatch, whatever the dispatch outcome.
    pub remove_after_print: Option<bool>,
}

/// Page margins for HTML rendering; each side is decimal text in `unit`.
///
/// An unset side falls back to the system default of 10mm, independent of
/// which other fields are set.
pub struct PrintMargin {
    pub top: Option<String>,
    pub right: Option<String>,
    pub bottom: Option<String>,
    pub left: Option<String>,
    /// Measurement unit (`mm`, `cm`, `in`); unset means millimetres.
    pub unit: Option<String>,
}

/// A request to render HTML to PDF and print the result.
pub struct PrintHtmlOptions {
    /// Caller-supplied, opaque job identifier; carried, never interpreted.
    pub id: String,
    /// The HTML content to render; must not be empty or whitespace-only.
    pub html: String,
    /// Target printer; empty or `"default"` means the system default printer.
    pub printer: String,
    /// Tool-specific print-settings text; empty means none.
    pub print_settings: String,
    /// Remove the rendered PDF after dispatch, whatever the dispatch outcome.
    pub remove_after_print: Option<bool>,
    /// A named page size such as `A4` or `Letter`; unset means `A4`.
    pub page_size: Option<String>,
    /// Page orientation; unset means `Portrait`.
    pub orientation: Option<String>,
    /// Page margins; unset means the 10mm default on all four sides.
    pub margin: Option<PrintMargin>,
    /// Print quality; carried for renderers that support it.
    pub quality: Option<u32>,
    /// Grayscale printing; carried for renderers that support it.
    pub grayscale: Option<bool>,
    /// Number of copies; carried for renderers that support it.
    pub copies: Option<u32>,
    /// Explicit page width in millimetres, as decimal text; together with
    /// `page_height` it takes precedence over `page_size`.
    pub page_width: Option<String>,
    /// Explicit page height in millimetres, as decimal text.
    pub page_height: Option<String>,
}

/// A request to download a PDF from a URL and print it.
pub struct PrintPdfUrlOptions {
    /// Caller-supplied, opaque job identifier; carried, never interpreted.
    pub id: String,
    /// The URL to fetch the PDF from; must not be empty or whitespace-only.
    pub url: String,
    /// Target printer; empty or `"default"` means the system default printer.
    pub printer: String,
    /// Tool-specific print-settings text; empty means none.
    pub print_settings: String,
    /// Remove the downloaded PDF after dispatch, whatever the dispatch outcome.
    pub remove_after_print: Option<bool>,
    /// Download timeout in seconds; unset means 30.
    pub timeout_seconds: Option<u64>,
    /// Carried for callers that pick a temporary directory themselves; the
    /// operations here take their temporary directory from the caller's
    /// [`crate::temp::TempContext`] instead.
    pub temp_dir: Option<String>,
}

} // verus!

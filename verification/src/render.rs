//! The rendering invoker: turns HTML-print options into the validated,
//! fixed-order argument list of the external HTML-to-PDF tool.
//!
//! Argument order: encoding, local-file-access, shrink/quality flags,
//! error-tolerance flags, the four margin flags (the 10mm default for every
//! unset side, the explicit value with its declared unit for every set side),
//! then either the explicit width and height, or the named page size, or the
//! A4 default, then the orientation, then the HTML source path and the PDF
//! destination path.

use vstd::prelude::*;

use crate::invoke::CmdInvocation;
use crate::options::{PrintHtmlOptions, PrintMargin};

verus! {

/// The fixed flags that open every renderer invocation.
pub open spec fn spec_base_args() -> Seq<Seq<char>> {
    seq![
        "--encoding"@,
        "UTF-8"@,
        "--enable-local-file-access"@,
        "--disable-smart-shrinking"@,
        "--print-media-type"@,
        "--no-pdf-compression"@,
        "--load-error-handling"@,
        "ignore"@,
        "--load-media-error-handling"@,
        "ignore"@,
    ]
}

/// The unit suffix that applies to explicit margin values.
pub open spec fn spec_margin_unit(margin: Option<PrintMargin>) -> Seq<char> {
    match margin {
        Some(m) => match m.unit {
            Some(u) => u@,
            None => "mm"@,
        },
        None => "mm"@,
    }
}

/// The argument text for one margin side: the explicit value with its unit
/// when set, the 10mm system default when not.
pub open spec fn spec_margin_value(side: Option<Seq<char>>, unit: Seq<char>) -> Seq<char> {
    match side {
        Some(v) => v + unit,
        None => "10mm"@,
    }
}

/// The top margin as given, if any.
pub open spec fn spec_margin_top(margin: Option<PrintMargin>) -> Option<Seq<char>> {
    match margin {
        Some(m) => m.top.deep_view(),
        None => None,
    }
}

/// The right margin as given, if any.
pub open spec fn spec_margin_right(margin: Option<PrintMargin>) -> Option<Seq<char>> {
    match margin {
        Some(m) => m.right.deep_view(),
        None => None,
    }
}

/// The bottom margin as given, if any.
pub open spec fn spec_margin_bottom(margin: Option<PrintMargin>) -> Option<Seq<char>> {
    match margin {
        Some(m) => m.bottom.deep_view(),
        None => None,
    }
}

/// The left margin as given, if any.
pub open spec fn spec_margin_left(margin: Option<PrintMargin>) -> Option<Seq<char>> {
    match margin {
        Some(m) => m.left.deep_view(),
        None => None,
    }
}

/// The four margin flags, in top, right, bottom, left order.
pub open spec fn spec_margin_args(margin: Option<PrintMargin>) -> Seq<Seq<char>> {
    seq![
        "--margin-top"@,
        spec_margin_value(spec_margin_top(margin), spec_margin_unit(margin)),
        "--margin-right"@,
        spec_margin_value(spec_margin_right(margin), spec_margin_unit(margin)),
        "--margin-bottom"@,
        spec_margin_value(spec_margin_bottom(margin), spec_margin_unit(margin)),
        "--margin-left"@,
        spec_margin_value(spec_margin_left(margin), spec_margin_unit(margin)),
    ]
}

/// The page-dimension flags: the explicit width and height (in millimetres)
/// when both are given, else the named page size, else the A4 default.
pub open spec fn spec_size_args(o: PrintHtmlOptions) -> Seq<Seq<char>> {
    match (o.page_width, o.page_height) {
        (Some(w), Some(h)) => seq![
            "--page-width"@,
            w@ + "mm"@,
            "--page-height"@,
            h@ + "mm"@,
        ],
        _ => match o.page_size {
            Some(name) => seq!["--page-size"@, name@],
            None => seq!["--page-size"@, "A4"@],
        },
    }
}

/// The orientation flag; Portrait unless the request says otherwise.
pub open spec fn spec_orientation_args(o: PrintHtmlOptions) -> Seq<Seq<char>> {
    match o.orientation {
        Some(v) => seq!["--orientation"@, v@],
        None => seq!["--orientation"@, "Portrait"@],
    }
}

/// The complete renderer argument list, in its fixed order.
pub open spec fn spec_render_args(
    o: PrintHtmlOptions,
    html_path: Seq<char>,
    pdf_path: Seq<char>,
) -> Seq<Seq<char>> {
    spec_base_args() + spec_margin_args(o.margin) + spec_size_args(o) + spec_orientation_args(o)
        + seq![html_path, pdf_path]
}

/// Explicit page dimensions win: whenever a request carries both a width and
/// a height, the emitted argument list carries the width and height flags,
/// and the named-page-size flag is not emitted — the page-size flag only ever
/// stands in the dimension segment, and that segment holds no trace of it.
pub proof fn lemma_explicit_size_wins(o: PrintHtmlOptions, html_path: Seq<char>, pdf_path: Seq<
    char,
>)
    requires
        o.page_width is Some,
        o.page_height is Some,
    ensures
        spec_size_args(o) == seq![
            "--page-width"@,
            o.page_width->0@ + "mm"@,
            "--page-height"@,
            o.page_height->0@ + "mm"@,
        ],
        forall|i: int| 0 <= i < spec_size_args(o).len() ==> spec_size_args(o)[i]
            != "--page-size"@,
        !spec_size_args(o).contains("--page-size"@),
        spec_render_args(o, html_path, pdf_path).contains("--page-width"@),
        spec_render_args(o, html_path, pdf_path).contains("--page-height"@),
{
    reveal_strlit("--page-width");
    reveal_strlit("--page-height");
    reveal_strlit("--page-size");
    reveal_strlit("mm");
    let s = spec_size_args(o);
    assert(s.len() == 4);
    assert(s[1] == o.page_width->0@ + "mm"@);
    assert(s[3] == o.page_height->0@ + "mm"@);
    assert(s[0] != "--page-size"@) by {
        assert("--page-width"@.len() == 12 && "--page-size"@.len() == 11);
    }
    assert(s[2] != "--page-size"@) by {
        assert("--page-height"@.len() == 13 && "--page-size"@.len() == 11);
    }
    assert(s[1] != "--page-size"@) by {
        let v = o.page_width->0@ + "mm"@;
        if v == "--page-size"@ {
            assert(v[v.len() - 1] == 'm');
            assert("--page-size"@[10] == 'e');
        }
    }
    assert(s[3] != "--page-size"@) by {
        let v = o.page_height->0@ + "mm"@;
        if v == "--page-size"@ {
            assert(v[v.len() - 1] == 'm');
            assert("--page-size"@[10] == 'e');
        }
    }
    let all = spec_render_args(o, html_path, pdf_path);
    assert(all[18] == "--page-width"@);
    assert(all[20] == "--page-height"@);
}

/// Every unset margin side is emitted with the 10mm system default, and every
/// set side with its explicit value and declared unit, independent of which
/// other fields are set: the four margin pairs stand at fixed positions in
/// the emitted argument list.
pub proof fn lemma_margin_flags(o: PrintHtmlOptions, html_path: Seq<char>, pdf_path: Seq<char>)
    ensures
        spec_render_args(o, html_path, pdf_path)[10] == "--margin-top"@,
        spec_render_args(o, html_path, pdf_path)[12] == "--margin-right"@,
        spec_render_args(o, html_path, pdf_path)[14] == "--margin-bottom"@,
        spec_render_args(o, html_path, pdf_path)[16] == "--margin-left"@,
        spec_render_args(o, html_path, pdf_path)[11] == spec_margin_value(
            spec_margin_top(o.margin),
            spec_margin_unit(o.margin),
        ),
        spec_render_args(o, html_path, pdf_path)[13] == spec_margin_value(
            spec_margin_right(o.margin),
            spec_margin_unit(o.margin),
        ),
        spec_render_args(o, html_path, pdf_path)[15] == spec_margin_value(
            spec_margin_bottom(o.margin),
            spec_margin_unit(o.margin),
        ),
        spec_render_args(o, html_path, pdf_path)[17] == spec_margin_value(
            spec_margin_left(o.margin),
            spec_margin_unit(o.margin),
        ),
        spec_margin_top(o.margin) is None ==> spec_render_args(o, html_path, pdf_path)[11]
            == "10mm"@,
        spec_margin_top(o.margin) matches Some(v) ==> spec_render_args(o, html_path, pdf_path)[11]
            == v + spec_margin_unit(o.margin),
        spec_margin_right(o.margin) is None ==> spec_render_args(o, html_path, pdf_path)[13]
            == "10mm"@,
        spec_margin_right(o.margin) matches Some(v) ==> spec_render_args(
            o,
            html_path,
            pdf_path,
        )[13] == v + spec_margin_unit(o.margin),
        spec_margin_bottom(o.margin) is None ==> spec_render_args(o, html_path, pdf_path)[15]
            == "10mm"@,
        spec_margin_bottom(o.margin) matches Some(v) ==> spec_render_args(
            o,
            html_path,
            pdf_path,
        )[15] == v + spec_margin_unit(o.margin),
        spec_margin_left(o.margin) is None ==> spec_render_args(o, html_path, pdf_path)[17]
            == "10mm"@,
        spec_margin_left(o.margin) matches Some(v) ==> spec_render_args(o, html_path, pdf_path)[17]
            == v + spec_margin_unit(o.margin),
{
}

/// The argument text for one margin side.
fn margin_value(side: &Option<String>, unit: &str) -> (r: String)
    ensures
        r@ == spec_margin_value(side.deep_view(), unit@),
{
    match side {
        Some(v) => {
            let mut s = v.clone();
            s.append(unit);
            s
        },
        None => String::from_str("10mm"),
    }
}

/// Builds the renderer's argument list for the given options and paths.
pub fn build_renderer_args(o: &PrintHtmlOptions, html_path: &str, pdf_path: &str) -> (args: Vec<
    String,
>)
    ensures
        args.deep_view() == spec_render_args(*o, html_path@, pdf_path@),
{
    let mut args: Vec<String> = Vec::new();
    args.push(String::from_str("--encoding"));
    args.push(String::from_str("UTF-8"));
    args.push(String::from_str("--enable-local-file-access"));
    args.push(String::from_str("--disable-smart-shrinking"));
    args.push(String::from_str("--print-media-type"));
    args.push(String::from_str("--no-pdf-compression"));
    args.push(String::from_str("--load-error-handling"));
    args.push(String::from_str("ignore"));
    args.push(String::from_str("--load-media-error-handling"));
    args.push(String::from_str("ignore"));
    proof {
        assert(args.deep_view() =~= spec_base_args());
    }
    let unit: &str = match &o.margin {
        Some(m) => match &m.unit {
            Some(u) => u.as_str(),
            None => "mm",
        },
        None => "mm",
    };
    args.push(String::from_str("--margin-top"));
    match &o.margin {
        Some(m) => args.push(margin_value(&m.top, unit)),
        None => args.push(margin_value(&None, unit)),
    }
    args.push(String::from_str("--margin-right"));
    match &o.margin {
        Some(m) => args.push(margin_value(&m.right, unit)),
        None => args.push(margin_value(&None, unit)),
    }
    args.push(String::from_str("--margin-bottom"));
    match &o.margin {
        Some(m) => args.push(margin_value(&m.bottom, unit)),
        None => args.push(margin_value(&None, unit)),
    }
    args.push(String::from_str("--margin-left"));
    match &o.margin {
        Some(m) => args.push(margin_value(&m.left, unit)),
        None => args.push(margin_value(&None, unit)),
    }
    proof {
        assert(args.deep_view() =~= spec_base_args() + spec_margin_args(o.margin));
    }
    let has_explicit = o.page_width.is_some() && o.page_height.is_some();
    if has_explicit {
        args.push(String::from_str("--page-width"));
        match &o.page_width {
            Some(w) => {
                let mut v = w.clone();
                v.append("mm");
                args.push(v);
            },
            None => (),
        }
        args.push(String::from_str("--page-height"));
        match &o.page_height {
            Some(h) => {
                let mut v = h.clone();
                v.append("mm");
                args.push(v);
            },
            None => (),
        }
    } else {
        args.push(String::from_str("--page-size"));
        match &o.page_size {
            Some(name) => args.push(name.clone()),
            None => args.push(String::from_str("A4")),
        }
    }
    proof {
        assert(args.deep_view() =~= spec_base_args() + spec_margin_args(o.margin)
            + spec_size_args(*o));
    }
    args.push(String::from_str("--orientation"));
    match &o.orientation {
        Some(v) => args.push(v.clone()),
        None => args.push(String::from_str("Portrait")),
    }
    args.push(html_path.to_owned());
    args.push(pdf_path.to_owned());
    proof {
        assert(args.deep_view() =~= spec_render_args(*o, html_path@, pdf_path@));
    }
    args
}

/// The invocation that probes the renderer for its version, to confirm the
/// tool is discoverable before any temporary file is written.
pub fn renderer_probe() -> (inv: CmdInvocation)
    ensures
        inv.program@ == "wkhtmltopdf"@,
        inv.args.deep_view() == seq!["--version"@],
{
    let mut args: Vec<String> = Vec::new();
    args.push(String::from_str("--version"));
    proof {
        assert(args.deep_view() =~= seq!["--version"@]);
    }
    CmdInvocation { program: String::from_str("wkhtmltopdf"), args }
}

/// The invocation that renders `html_path` into `pdf_path`.
pub fn render_invocation(o: &PrintHtmlOptions, html_path: &str, pdf_path: &str) -> (inv:
    CmdInvocation)
    ensures
        inv.program@ == "wkhtmltopdf"@,
        inv.args.deep_view() == spec_render_args(*o, html_path@, pdf_path@),
{
    CmdInvocation {
        program: String::from_str("wkhtmltopdf"),
        args: build_renderer_args(o, html_path, pdf_path),
    }
}

} // verus!

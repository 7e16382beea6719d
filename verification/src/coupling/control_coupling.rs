//! Control coupling: a caller influences the control flow of a callee by
//! passing a control flag.  Here the report generator hands the formatter a
//! `Format` flag and so knows about the formatter's internal dispatch.

use vstd::prelude::*;

verus! {

/// The control flag that the caller passes to steer the callee.
pub enum Format {
    PlainText,
    Html,
}

/// What formatting `data` under `format` yields.
pub open spec fn formatted_data(data: Seq<char>, format: Format) -> Seq<char> {
    match format {
        Format::PlainText => data,
        Format::Html => "<p>"@ + data + "</p>"@,
    }
}

/// The callee: one function that dispatches on the control flag.
pub fn format_data(data: String, format: Format) -> (r: String)
    ensures
        r@ == formatted_data(data@, format),
{
    match format {
        Format::PlainText => data,
        Format::Html => {
            let mut r = "<p>".to_owned();
            r.append(data.as_str());
            r.append("</p>");
            proof {
                assert(r@ =~= "<p>"@ + data@ + "</p>"@);
            }
            r
        },
    }
}

/// The caller: passes the control flag straight through, and so depends on
/// the callee's internal dispatch.
pub fn generate_report(format_type: Format) -> (r: String)
    ensures
        r@ == formatted_data("Some report data"@, format_type),
{
    let data = "Some report data".to_owned();
    format_data(data, format_type)
}

} // verus!

//! The decoupled counterpart of the control-coupling example: the report
//! generator depends only on the stable `Formatter` trait, and each format
//! is a type of its own.

use vstd::prelude::*;

verus! {

/// An application marker type for the decoupled design.
pub struct App;

/// The public, stable interface between generator and formatters.
pub trait Formatter {
    /// What this formatter makes of `data`.
    spec fn spec_format(&self, data: Seq<char>) -> Seq<char>;

    /// Formats `data`.
    fn format(&self, data: &str) -> (r: String)
        ensures
            r@ == self.spec_format(data@),
    ;
}

pub struct PlainTextFormatter;

impl Formatter for PlainTextFormatter {
    open spec fn spec_format(&self, data: Seq<char>) -> Seq<char> {
        data
    }

    fn format(&self, data: &str) -> (r: String) {
        data.to_owned()
    }
}

pub struct HtmlFormatter;

impl Formatter for HtmlFormatter {
    open spec fn spec_format(&self, data: Seq<char>) -> Seq<char> {
        "<p>"@ + data + "</p>"@
    }

    fn format(&self, data: &str) -> (r: String) {
        let mut r = "<p>".to_owned();
        r.append(data);
        r.append("</p>");
        proof {
            assert(r@ =~= "<p>"@ + data@ + "</p>"@);
        }
        r
    }
}

/// The generator now depends only on the `Formatter` trait, not on any
/// format's internals.
pub fn generate_report<F: Formatter>(formatter: &F) -> (r: String)
    ensures
        r@ == formatter.spec_format("Some report data"@),
{
    formatter.format("Some report data")
}

} // verus!

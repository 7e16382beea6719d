//! Content coupling: one module reaches into the private internals of
//! another.  The remedy is a public, stable contract: consumers read the
//! view count through the `Reportable` trait instead of the field.

use vstd::prelude::*;
use crate::text::{decimal_digits, repeat_seq, repeat_str, u64_to_decimal};

verus! {

/// A stable interface for anything that can report a view count: the
/// dependency inversion that removes the content coupling.
pub trait Reportable {
    /// The reported count.
    spec fn views(&self) -> nat;

    /// Hands the count out.
    fn view_count(self) -> (r: usize)
        ensures
            r as nat == self.views(),
    ;
}

/// A store whose internals stay private; consumers go through its methods
/// or through `Reportable`.
pub struct Storage {
    view_count: usize,
}

impl Default for Storage {
    /// An empty store: no views yet.
    fn default() -> (r: Self)
        ensures
            r.views() == 0,
    {
        Storage { view_count: 0 }
    }
}

impl Reportable for Storage {
    closed spec fn views(&self) -> nat {
        self.view_count as nat
    }

    fn view_count(self) -> (r: usize) {
        self.view_count
    }
}

impl Storage {
    /// Renders the report that used to be printed directly: a banner, the
    /// total view count, and a closing banner, one per line.
    pub fn view_count_report(self) -> (r: String)
        ensures
            r@ == repeat_seq("-"@, 40) + " Reporting "@ + repeat_seq("-"@, 40) + "\n"@
                + "Total view count is :"@ + decimal_digits(self.views()) + "\n"@ + repeat_seq(
                "-"@,
                37,
            ) + " End of Reporting "@ + repeat_seq("-"@, 37),
    {
        let mut r = repeat_str("-", 40);
        r.append(" Reporting ");
        let second_rule = repeat_str("-", 40);
        r.append(second_rule.as_str());
        r.append("\n");
        r.append("Total view count is :");
        let count = u64_to_decimal(self.view_count as u64);
        r.append(count.as_str());
        r.append("\n");
        let third_rule = repeat_str("-", 37);
        r.append(third_rule.as_str());
        r.append(" End of Reporting ");
        let fourth_rule = repeat_str("-", 37);
        r.append(fourth_rule.as_str());
        proof {
            assert(r@ =~= repeat_seq("-"@, 40) + " Reporting "@ + repeat_seq("-"@, 40) + "\n"@
                + "Total view count is :"@ + decimal_digits(self.views()) + "\n"@ + repeat_seq(
                "-"@,
                37,
            ) + " End of Reporting "@ + repeat_seq("-"@, 37));
        }
        r
    }
}

} // verus!

//! Procedural cohesion: a module groups steps because they must run in a
//! fixed order.  The problem shape is one function that fetches, formats,
//! summarizes and assembles a report; the solution exposes each step as a
//! functionally cohesive function of its own.

use vstd::prelude::*;
use crate::text::{decimal_digits, u64_to_decimal};

verus! {

/// The views of a sequence of strings.
pub open spec fn views_of(items: Seq<String>) -> Seq<Seq<char>> {
    items.map_values(|s: String| s@)
}

/// `lines` joined with a newline between consecutive entries.
pub open spec fn joined_lines(lines: Seq<Seq<char>>) -> Seq<char>
    decreases lines.len(),
{
    if lines.len() == 0 {
        Seq::empty()
    } else if lines.len() == 1 {
        lines[0]
    } else {
        joined_lines(lines.drop_last()) + "\n"@ + lines.last()
    }
}

/// The summary line for `count` items.
pub open spec fn summary_text(count: nat) -> Seq<char> {
    "Summary: "@ + decimal_digits(count) + " items processed."@
}

/// The full report: cover, summary and data, separated by rules.
pub open spec fn report_text(cover: Seq<char>, summary: Seq<char>, data: Seq<Seq<char>>) -> Seq<
    char,
> {
    cover + "\n---\n"@ + summary + "\n---\n"@ + joined_lines(data)
}

/// A functionally cohesive step that only fetches the raw data.
pub fn fetch_raw_data() -> (r: Vec<String>)
    ensures
        views_of(r@) =~= seq!["Data for section 1"@, "Data for section 2"@],
{
    let mut r: Vec<String> = Vec::new();
    r.push("Data for section 1".to_owned());
    r.push("Data for section 2".to_owned());
    r
}

/// A functionally cohesive step that only formats the cover page.
pub fn format_cover_page() -> (r: String)
    ensures
        r@ == "** Confidential Report **\n"@,
{
    "** Confidential Report **\n".to_owned()
}

/// A functionally cohesive step that only summarizes the data.
pub fn summarize_data(data: &[String]) -> (r: String)
    ensures
        r@ == summary_text(data@.len() as nat),
{
    let mut r = "Summary: ".to_owned();
    let count = u64_to_decimal(data.len() as u64);
    r.append(count.as_str());
    r.append(" items processed.");
    proof {
        assert(r@ =~= summary_text(data@.len() as nat));
    }
    r
}

/// Joins the data lines with newlines.
fn join_data_lines(data: &[String]) -> (r: String)
    ensures
        r@ == joined_lines(views_of(data@)),
{
    let mut r = String::new();
    let mut i: usize = 0;
    while i < data.len()
        invariant
            0 <= i <= data@.len(),
            r@ == joined_lines(views_of(data@).subrange(0, i as int)),
        decreases data@.len() - i,
    {
        if i > 0 {
            r.append("\n");
        }
        let line: &String = &data[i];
        r.append(line.as_str());
        proof {
            let vs = views_of(data@);
            let extended = vs.subrange(0, i as int + 1);
            assert(extended.drop_last() =~= vs.subrange(0, i as int));
            assert(extended.last() == data@[i as int]@);
            assert(r@ =~= joined_lines(extended));
        }
        i = i + 1;
    }
    proof {
        assert(views_of(data@).subrange(0, data@.len() as int) =~= views_of(data@));
    }
    r
}

/// A functionally cohesive step that only assembles the final report.
pub fn assemble_report(cover: String, summary: String, data: &[String]) -> (r: String)
    ensures
        r@ == report_text(cover@, summary@, views_of(data@)),
{
    let mut r = cover;
    r.append("\n---\n");
    r.append(summary.as_str());
    r.append("\n---\n");
    let joined = join_data_lines(data);
    r.append(joined.as_str());
    proof {
        assert(r@ =~= report_text(cover@, summary@, views_of(data@)));
    }
    r
}

/// The procedurally cohesive coordinator: runs the steps in their one fixed
/// order and returns the assembled report.
pub fn generate_full_report() -> (r: String)
    ensures
        r@ == report_text(
            "** Confidential Report **\n"@,
            summary_text(2),
            seq!["Data for section 1"@, "Data for section 2"@],
        ),
{
    let raw_data = fetch_raw_data();
    let cover = format_cover_page();
    let summary = summarize_data(raw_data.as_slice());
    assemble_report(cover, summary, raw_data.as_slice())
}

} // verus!

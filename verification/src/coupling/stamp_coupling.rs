//! Stamp coupling: a function receives a whole composite record but reads
//! only one of its fields.  `telemetry_line` is coupled to the `id` field
//! while the name, email and address travel along unused.

use vstd::prelude::*;
use crate::text::{decimal_digits, u64_to_decimal};

verus! {

/// A composite record with several fields.
pub struct Record {
    pub id: u64,
    pub name: String,
    pub email: String,
    pub address: String,
}

/// Renders the telemetry line for `record`.  Only the `id` field is used;
/// taking the whole record is the stamp coupling on display.
pub fn telemetry_line(record: &Record) -> (r: String)
    ensures
        r@ == "Sending record with "@ + decimal_digits(record.id as nat) + " id"@,
{
    let mut r = "Sending record with ".to_owned();
    let id_text = u64_to_decimal(record.id);
    r.append(id_text.as_str());
    r.append(" id");
    proof {
        assert(r@ =~= "Sending record with "@ + decimal_digits(record.id as nat) + " id"@);
    }
    r
}

} // verus!

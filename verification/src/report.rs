//! A plain-text listing of the records of a response, for a caller to
//! print.

use vstd::prelude::*;
use vstd::string::*;
use crate::adapter::{records_in, records_of};
use crate::error::ResoError;
use crate::json::{documents, json_pretty, Document};
use crate::text::{decimal, decimal_text};

verus! {

/// The line that stands for a response without records.
pub open spec fn no_records() -> Seq<char> {
    "No records found or invalid response format\n"@
}

/// The heading of a listing of `count` records, and the empty line after it.
pub open spec fn heading(count: nat) -> Seq<char> {
    "Found "@ + decimal(count) + " records\n\n"@
}

/// The entry of the record at `index`, counted from zero: its number,
/// counted from one, the indented record, and an empty line.
pub open spec fn entry(index: nat, pretty: Seq<char>) -> Seq<char> {
    "Record "@ + decimal(index + 1) + ":\n"@ + pretty + "\n\n"@
}

/// The entries of the first `n` records, one after the other; `None` if one
/// of them has no indented rendering.
pub open spec fn entries(records: Seq<Seq<char>>, n: nat) -> Option<Seq<char>>
    decreases n,
{
    if n == 0 {
        Some(Seq::empty())
    } else {
        match (entries(records, (n - 1) as nat), json_pretty(records[n - 1])) {
            (Some(before), Some(pretty)) => Some(before + entry((n - 1) as nat, pretty)),
            _ => None,
        }
    }
}

/// The listing of the records of `envelope`: the heading and one entry for
/// each record, or the line that stands for a response without records.
/// `MalformedResponse` if a record has no indented rendering.
pub open spec fn report(envelope: Seq<char>) -> Result<Seq<char>, ResoError> {
    match records_in(envelope) {
        None => Ok(no_records()),
        Some(records) => match entries(records, records.len()) {
            Some(text) => Ok(heading(records.len()) + text),
            None => Err(ResoError::MalformedResponse),
        },
    }
}

/// The view of a listing that was made, or the error.
pub open spec fn listing(r: Result<String, ResoError>) -> Result<Seq<char>, ResoError> {
    match r {
        Ok(text) => Ok(text@),
        Err(e) => Err(e),
    }
}

/// The heading of a listing of `count` records, and the empty line after it.
pub fn report_heading(count: usize) -> (r: String)
    ensures
        r@ == heading(count as nat),
{
    let number = decimal_text(count as u64);
    String::from_str("Found ").concat(number.as_str()).concat(" records\n\n")
}

/// The entry of the record at `index`, counted from zero, whose indented
/// rendering is `pretty`.
pub fn report_entry(index: usize, pretty: &str) -> (r: String)
    requires
        index < usize::MAX,
    ensures
        r@ == entry(index as nat, pretty@),
{
    let number = decimal_text(index as u64 + 1);
    String::from_str("Record ").concat(number.as_str()).concat(":\n").concat(pretty).concat(
        "\n\n",
    )
}

/// The entries of `records`, one after the other; `None` if one of them has
/// no indented rendering.
pub fn report_entries(records: &Vec<Document>) -> (r: Option<String>)
    ensures
        crate::text::opt_text(r) == entries(documents(records@), records@.len()),
{
    let ghost all = documents(records@);
    let mut out = String::new();
    let mut i: usize = 0;
    while i < records.len()
        invariant
            i <= records@.len(),
            all == documents(records@),
            entries(all, i as nat) == Some(out@),
        decreases records@.len() - i,
    {
        proof {
            assert(all[i as int] == records@[i as int]@);
        }
        match records[i].pretty() {
            Some(pretty) => {
                let next = report_entry(i, pretty.as_str());
                out.append(next.as_str());
            },
            None => {
                proof {
                    lemma_entries_stay_missing(all, (i + 1) as nat, records@.len() as nat);
                }
                return None;
            },
        }
        i += 1;
    }
    Some(out)
}

/// Once a record has no indented rendering, no longer listing has entries.
proof fn lemma_entries_stay_missing(records: Seq<Seq<char>>, n: nat, m: nat)
    requires
        n <= m,
        entries(records, n) is None,
    ensures
        entries(records, m) is None,
    decreases m - n,
{
    if n < m {
        lemma_entries_stay_missing(records, n, (m - 1) as nat);
    }
}

/// The listing of the records of a response: a heading with their number,
/// then each record under its number, indented for reading. A response
/// without an array of records yields one line that says so.
///
/// `MalformedResponse` if a record has no indented rendering, that is, if
/// `serde_json` does not read the record that it has itself handed out of
/// the response. None is known to be so, but nothing here rests on that.
pub fn records_report(response: &Document) -> (r: Result<String, ResoError>)
    ensures
        listing(r) == report(response@),
{
    match records_of(response) {
        None => Ok(String::from_str("No records found or invalid response format\n")),
        Some(records) => match report_entries(&records) {
            Some(text) => Ok(report_heading(records.len()).concat(text.as_str())),
            None => Err(ResoError::MalformedResponse),
        },
    }
}

} // verus!

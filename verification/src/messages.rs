//! The console lines of the pipeline, pinned character for character.
//!
//! The library composes the text; the surrounding program decides how it
//! reaches the terminal (the progress line is redrawn in place with a
//! carriage return, the summary gets a line of its own).

use vstd::prelude::*;
use crate::decimal::{decimal_digits, u64_to_decimal};

verus! {

/// The progress line after `n` cumulative rows.
pub open spec fn progress_text(n: nat) -> Seq<char> {
    "Processing rows: "@ + decimal_digits(n)
}

/// The summary line for a run that converted `n` rows in all.
pub open spec fn summary_text(n: nat) -> Seq<char> {
    "Conversion to Parquet completed! Total rows: "@ + decimal_digits(n)
}

/// Renders the progress line for `n` cumulative rows.
pub fn progress_line(n: u64) -> (r: String)
    ensures
        r@ == progress_text(n as nat),
{
    let mut s = String::from_str("Processing rows: ");
    let digits = u64_to_decimal(n);
    s.append(digits.as_str());
    s
}

/// Renders the final summary line for a total of `n` rows.
pub fn summary_line(n: u64) -> (r: String)
    ensures
        r@ == summary_text(n as nat),
{
    let mut s = String::from_str("Conversion to Parquet completed! Total rows: ");
    let digits = u64_to_decimal(n);
    s.append(digits.as_str());
    s
}

} // verus!

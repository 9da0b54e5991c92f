//! The wall clock and fresh identifiers: values the logic receives from outside.
use vstd::prelude::*;

use crate::kdbx::{hyphenated_lowercase_uuid, rfc3339_of, spec_rfc3339_parses, spec_uuid_parses};

verus! {

/// Trusted: `chrono::Utc::now().to_rfc3339()`, the current UTC time as RFC 3339 text. The
/// value depends on the clock, so which time it is is not stated; what holds of every
/// reading is: it is the text chrono prints for a UTC time stamp (`Utc::now()` is
/// `from_naive_utc_and_offset` of its naive UTC time), and `DateTime::parse_from_rfc3339`
/// accepts it (a clock reading lies within years 0 to 9999, which RFC 3339 covers).
#[verifier::external_body]
pub(crate) fn now_rfc3339() -> (r: String)
    ensures
        exists|t: chrono::NaiveDateTime| r@ == rfc3339_of(t),
        spec_rfc3339_parses(r@),
{
    chrono::Utc::now().to_rfc3339()
}

/// Trusted: `uuid::Uuid::new_v4().to_string()`, a random version-4 UUID in its hyphenated text
/// form. Which UUID it is is random and not stated; every one is printed hyphenated in
/// lowercase hex (uuid's `Display`), which `Uuid::parse_str` accepts.
#[verifier::external_body]
pub(crate) fn new_entry_id() -> (r: String)
    ensures
        hyphenated_lowercase_uuid(r@),
        spec_uuid_parses(r@),
{
    uuid::Uuid::new_v4().to_string()
}

} // verus!

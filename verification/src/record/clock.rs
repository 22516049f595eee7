//! Calendar time as the library carries it.
//!
//! A timestamp is an opaque value to the verifier: records carry it from the
//! caller to the store unchanged, and nothing in the library looks inside.

use vstd::prelude::*;
use chrono::NaiveDateTime;

verus! {

/// `chrono::NaiveDateTime`, a date and a time of day without a zone. Declared
/// so that it can stand in fields and signatures; its contents stay hidden
/// from the verifier.
#[verifier::external_type_specification]
#[verifier::external_body]
pub struct ExNaiveDateTime(chrono::NaiveDateTime);

/// Reads the wall clock: `chrono::Utc::now()`, taken as a naive UTC
/// timestamp. Nothing is claimed of the value, which differs from call to
/// call.
#[verifier::external_body]
pub(crate) fn now() -> NaiveDateTime {
    chrono::Utc::now().naive_utc()
}

} // verus!

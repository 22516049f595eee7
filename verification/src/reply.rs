//! The transport-level status of an answer.

use vstd::prelude::*;
use crate::errors::CustomError;

verus! {

/// The status that reports a created entity.
pub const CREATED: u16 = 201;

/// The status that reports a successful read.
pub const OK: u16 = 200;

/// The status of an answer to a request that creates something: created
/// on success, else the status of the error.
pub fn status_of_creation<T>(answer: &Result<T, CustomError>) -> (code: u16)
    ensures
        code == match answer {
            Ok(_) => CREATED,
            Err(e) => e@.status(),
        },
{
    match answer {
        Ok(_) => CREATED,
        Err(e) => e.status_code(),
    }
}

/// The status of an answer to a request that reads something: ok on
/// success, else the status of the error.
pub fn status_of_read<T>(answer: &Result<T, CustomError>) -> (code: u16)
    ensures
        code == match answer {
            Ok(_) => OK,
            Err(e) => e@.status(),
        },
{
    match answer {
        Ok(_) => OK,
        Err(e) => e.status_code(),
    }
}

} // verus!

//! The error taxonomy shared by every layer.

use vstd::prelude::*;

verus! {

/// What went wrong, as reported to the caller. Exactly one error is
/// reported per call; none is retried internally.
#[derive(Debug, PartialEq, Eq)]
pub enum CustomError {
    /// The acting user holds no role on the book, or a read-only one.
    /// The text names the role check that failed.
    Unauthorized(String),
    /// A reference is not usable in the authorized scope. The text names
    /// the kind of reference. A reference owned by another book is reported
    /// exactly like one that does not exist.
    NotFound(String),
    /// The entity named by the text already exists.
    Duplicated(String),
    /// The storage engine reported a fault; the text carries its detail.
    DatabaseError(String),
    /// Anything not otherwise classified; the text carries its detail.
    Unexpected(String),
}

/// Mathematical view of a [`CustomError`]: the same variants over character
/// sequences.
pub enum CustomErrorView {
    /// No write-capable role; the text names the role check.
    Unauthorized(Seq<char>),
    /// An unusable reference; the text names its kind.
    NotFound(Seq<char>),
    /// An entity that exists already; the text names it.
    Duplicated(Seq<char>),
    /// A fault of the storage engine; the text is its detail.
    DatabaseError(Seq<char>),
    /// Anything else; the text is its detail.
    Unexpected(Seq<char>),
}

impl View for CustomError {
    type V = CustomErrorView;

    open spec fn view(&self) -> CustomErrorView {
        match self {
            CustomError::Unauthorized(s) => CustomErrorView::Unauthorized(s@),
            CustomError::NotFound(s) => CustomErrorView::NotFound(s@),
            CustomError::Duplicated(s) => CustomErrorView::Duplicated(s@),
            CustomError::DatabaseError(s) => CustomErrorView::DatabaseError(s@),
            CustomError::Unexpected(s) => CustomErrorView::Unexpected(s@),
        }
    }
}

impl Clone for CustomError {
    fn clone(&self) -> (copy: Self)
        ensures
            copy == *self,
    {
        match self {
            CustomError::Unauthorized(s) => CustomError::Unauthorized(s.clone()),
            CustomError::NotFound(s) => CustomError::NotFound(s.clone()),
            CustomError::Duplicated(s) => CustomError::Duplicated(s.clone()),
            CustomError::DatabaseError(s) => CustomError::DatabaseError(s.clone()),
            CustomError::Unexpected(s) => CustomError::Unexpected(s.clone()),
        }
    }
}

/// A failure of the storage engine while it evaluated or committed a
/// statement, as the engine's client reports it: whether the database
/// itself reported the fault, and the fault's description.
#[derive(Debug, PartialEq, Eq)]
pub enum EngineFault {
    /// The database reported an error for the statement.
    Database(String),
    /// Anything else: the connection, the protocol, the decoding of a row.
    Other(String),
}

/// Lifts the error view through a `Result`, leaving the success value as is.
pub open spec fn outcome_view<T>(r: Result<T, CustomError>) -> Result<T, CustomErrorView> {
    match r {
        Ok(v) => Ok(v),
        Err(e) => Err(e@),
    }
}

impl CustomErrorView {
    /// The transport-level status that stands for this kind of error.
    pub open spec fn status(self) -> u16 {
        match self {
            CustomErrorView::Unauthorized(_) => 403,
            CustomErrorView::NotFound(_) => 404,
            CustomErrorView::Duplicated(_) => 400,
            CustomErrorView::DatabaseError(_) => 500,
            CustomErrorView::Unexpected(_) => 500,
        }
    }

    /// The text carried by the error, whatever its kind.
    pub open spec fn detail(self) -> Seq<char> {
        match self {
            CustomErrorView::Unauthorized(s) => s,
            CustomErrorView::NotFound(s) => s,
            CustomErrorView::Duplicated(s) => s,
            CustomErrorView::DatabaseError(s) => s,
            CustomErrorView::Unexpected(s) => s,
        }
    }
}

impl CustomError {
    /// Classifies a failure of the storage engine: a fault that the
    /// database reported is a `DatabaseError`, any other an `Unexpected`;
    /// either carries the fault's description.
    pub fn from_fault(fault: EngineFault) -> (e: CustomError)
        ensures
            e@ == match fault {
                EngineFault::Database(detail) => CustomErrorView::DatabaseError(detail@),
                EngineFault::Other(detail) => CustomErrorView::Unexpected(detail@),
            },
    {
        match fault {
            EngineFault::Database(detail) => CustomError::DatabaseError(detail),
            EngineFault::Other(detail) => CustomError::Unexpected(detail),
        }
    }

    /// The transport-level status code for this error: forbidden, not
    /// found, bad request or server error.
    pub fn status_code(&self) -> (code: u16)
        ensures
            code == self@.status(),
    {
        match self {
            CustomError::Unauthorized(_) => 403,
            CustomError::NotFound(_) => 404,
            CustomError::Duplicated(_) => 400,
            CustomError::DatabaseError(_) => 500,
            CustomError::Unexpected(_) => 500,
        }
    }

    /// The text carried by the error.
    pub fn detail(&self) -> (text: &String)
        ensures
            text@ == self@.detail(),
    {
        match self {
            CustomError::Unauthorized(s) => s,
            CustomError::NotFound(s) => s,
            CustomError::Duplicated(s) => s,
            CustomError::DatabaseError(s) => s,
            CustomError::Unexpected(s) => s,
        }
    }
}

} // verus!

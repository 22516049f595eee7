//! The stores behind the record use cases, as capabilities.
//!
//! [`SaveRecordRepo`] is the boundary of the write transaction. The store in
//! memory implements it here, proved against the model; a store on a
//! database engine runs the same transaction as one statement and shares the
//! classification of its flags and of the engine's faults.

use vstd::prelude::*;
use chrono::NaiveDateTime;
use crate::errors::{CustomError, CustomErrorView};
use crate::errors::outcome_view;
use crate::record::clock::now;
use crate::record::entity::{Record, RecordView};
use crate::record::ledger::Ledger;
use crate::record::model::LedgerView;
use crate::record::model::candidates;
use crate::record::search::Search;
use crate::text::{decimal, decimal_text};
use vstd::string::StringExecFns;

verus! {

/// What a store may do with one call of the write transaction.
///
/// Either the call is one run of the transaction at some time: the state
/// after it and the result are those of the model. Or the engine failed
/// before anything was committed: the state is as it was and the result is
/// a `DatabaseError` or an `Unexpected`.
pub open spec fn runs_transaction(
    before: LedgerView,
    user_id: i32,
    record: RecordView,
    candidates: Seq<i32>,
    after: LedgerView,
    result: Result<i64, CustomErrorView>,
) -> bool {
    ||| exists|at: NaiveDateTime|
        (after, result) == #[trigger] before.save_record(user_id, record, candidates, at)
    ||| after == before && (result matches Err(e) && (e is DatabaseError || e is Unexpected))
}

/// A store that can run the record-write transaction.
pub trait SaveRecordRepo {
    /// The state of the store.
    spec fn state(&self) -> LedgerView;

    /// Validity of the store, kept by every call.
    spec fn inv(&self) -> bool;

    /// Creates a record for the user, with links to the connects that
    /// exist among `connect_ids`, as one atomic step.
    fn save_record(
        &mut self,
        user_id: i32,
        record: Record,
        connect_ids: Option<Vec<i32>>,
    ) -> (r: Result<i64, CustomError>)
        requires
            old(self).inv(),
        ensures
            final(self).inv(),
            runs_transaction(
                old(self).state(),
                user_id,
                record@,
                candidates(connect_ids),
                final(self).state(),
                outcome_view(r),
            ),
    ;
}

impl SaveRecordRepo for Ledger {
    open spec fn state(&self) -> LedgerView {
        self@
    }

    open spec fn inv(&self) -> bool {
        self.wf()
    }

    /// In memory nothing fails outside the model: the call is one run of the
    /// transaction at some time.
    fn save_record(
        &mut self,
        user_id: i32,
        record: Record,
        connect_ids: Option<Vec<i32>>,
    ) -> (r: Result<i64, CustomError>)
        ensures
            exists|at: NaiveDateTime|
                (final(self)@, outcome_view(r)) == #[trigger] old(self)@.save_record(
                    user_id,
                    record@,
                    candidates(connect_ids),
                    at,
                ),
    {
        save_record(self, user_id, record, connect_ids)
    }
}

/// Creates a record in the store in memory, now: reads the clock for the
/// creation time and runs [`Ledger::save_record_at`]. Whatever the clock
/// said, the call is one run of the transaction at some time.
pub fn save_record(
    ledger: &mut Ledger,
    user_id: i32,
    record: Record,
    connect_ids: Option<Vec<i32>>,
) -> (r: Result<i64, CustomError>)
    requires
        old(ledger).wf(),
    ensures
        final(ledger).wf(),
        exists|at: NaiveDateTime|
            (final(ledger)@, outcome_view(r)) == #[trigger] old(ledger)@.save_record(
                user_id,
                record@,
                candidates(connect_ids),
                at,
            ),
{
    let at = now();
    ledger.save_record_at(user_id, record, connect_ids, at)
}

/// A store that can read records.
pub trait GetRecordRepo {
    /// The records of the book that the user may see and that the query
    /// selects.
    fn get_list(&self, user_id: i32, book_id: i32, search_query: Search) -> Result<
        Vec<Record>,
        CustomError,
    >;

    /// The record with the id, if the user may see it.
    fn get_by_id(&self, user_id: i32, record_id: i64) -> Result<Record, CustomError>;
}

/// What a deletion reports once the engine has said how many rows it
/// removed: success if any row was removed, else the message that no record
/// has the id.
pub fn delete_outcome(id: i64, rows_affected: u64) -> (r: Result<(), String>)
    ensures
        match r {
            Ok(_) => rows_affected != 0,
            Err(message) => rows_affected == 0 && message@ == decimal(id as int)
                + " id not found"@,
        },
{
    if rows_affected == 0 {
        let mut message = decimal_text(id);
        message.append(" id not found");
        return Err(message);
    }
    Ok(())
}

/// A store that can delete records.
pub trait DeleteRecordRepo {
    /// Deletes the record with the id.
    fn delete_record(&self, id: i64) -> Result<(), String>;
}

} // verus!

//! The use cases of reading and deleting records over a store.
//!
//! A use case decides nothing that the store does not decide: it turns the
//! caller's values into what the store takes and hands back the store's
//! answer. Each contract therefore says which call of the store the answer
//! comes from.

use std::sync::Arc;
use vstd::prelude::*;
use crate::errors::CustomError;
use crate::record::entity::Record;
use crate::record::repository::{DeleteRecordRepo, GetRecordRepo};
use crate::record::search::{Search, SearchParams, SearchView};

verus! {

/// The use case of reading records.
pub trait ReadRecordUsecase {
    /// The records of the book that match the criteria.
    fn read_records(&self, user_id: i32, book_id: i32, params: SearchParams) -> Result<
        Vec<Record>,
        CustomError,
    >;

    /// The record with the id.
    fn read_record(&self, user_id: i32, record_id: i64) -> Result<Record, CustomError>;
}

/// The use case of reading records over a store.
pub struct ReadRecordUsecaseImpl<T: GetRecordRepo> {
    repository: T,
}

/// Whether `answer` is an answer that the store may give when it is asked
/// for the records of the book under the query that carries these criteria.
pub open spec fn listed_as_asked<T: GetRecordRepo>(
    repository: T,
    user_id: i32,
    book_id: i32,
    criteria: SearchView,
    answer: Result<Vec<Record>, CustomError>,
) -> bool {
    exists|query: Search|
        query@ == criteria && #[trigger] call_ensures(
            T::get_list,
            (&repository, user_id, book_id, query),
            answer,
        )
}

impl<T: GetRecordRepo> ReadRecordUsecaseImpl<T> {
    /// The store behind this use case.
    pub closed spec fn repository(&self) -> T {
        self.repository
    }

    /// The use case over the given store.
    pub fn new(repository: T) -> (usecase: Self)
        ensures
            usecase.repository() == repository,
    {
        Self { repository }
    }
}

impl<T: GetRecordRepo> ReadRecordUsecase for ReadRecordUsecaseImpl<T> {
    fn read_records(&self, user_id: i32, book_id: i32, params: SearchParams) -> (answer: Result<
        Vec<Record>,
        CustomError,
    >)
        ensures
            listed_as_asked(self.repository(), user_id, book_id, params@, answer),
    {
        read_records(&self.repository, user_id, book_id, params)
    }

    fn read_record(&self, user_id: i32, record_id: i64) -> (answer: Result<Record, CustomError>)
        ensures
            call_ensures(T::get_by_id, (&self.repository(), user_id, record_id), answer),
    {
        read_record(&self.repository, user_id, record_id)
    }
}

/// Reads the records of a book: turns the criteria into the store's query
/// and hands back the store's answer to exactly that user, book and query.
pub fn read_records<T: GetRecordRepo>(
    repository: &T,
    user_id: i32,
    book_id: i32,
    params: SearchParams,
) -> (answer: Result<Vec<Record>, CustomError>)
    ensures
        listed_as_asked(*repository, user_id, book_id, params@, answer),
{
    repository.get_list(user_id, book_id, params.to_query())
}

/// Reads one record: hands back the store's answer to exactly that user and
/// record id.
pub fn read_record<T: GetRecordRepo>(repository: &T, user_id: i32, record_id: i64) -> (answer:
    Result<Record, CustomError>)
    ensures
        call_ensures(T::get_by_id, (repository, user_id, record_id), answer),
{
    repository.get_by_id(user_id, record_id)
}

/// The use case of deleting a record.
pub trait DeleteRecordUsecase {
    /// Deletes the record with the id.
    fn delete_record(&self, id: i64) -> Result<(), String>;
}

/// The use case of deleting a record over a shared store.
pub struct DeleteRecordUsecaseImpl<T: DeleteRecordRepo> {
    repository: Arc<T>,
}

impl<T: DeleteRecordRepo> DeleteRecordUsecaseImpl<T> {
    /// The store behind this use case.
    pub closed spec fn repository(&self) -> T {
        *self.repository
    }

    /// The use case over the given store.
    pub fn new(repository: Arc<T>) -> (usecase: Self)
        ensures
            usecase.repository() == *repository,
    {
        Self { repository }
    }
}

impl<T: DeleteRecordRepo> DeleteRecordUsecase for DeleteRecordUsecaseImpl<T> {
    fn delete_record(&self, id: i64) -> (answer: Result<(), String>)
        ensures
            call_ensures(T::delete_record, (&self.repository(), id), answer),
    {
        delete_record(&*self.repository, id)
    }
}

/// Deletes one record: hands back the store's answer to exactly that id.
pub fn delete_record<T: DeleteRecordRepo>(repository: &T, id: i64) -> (answer: Result<(), String>)
    ensures
        call_ensures(T::delete_record, (repository, id), answer),
{
    repository.delete_record(id)
}

} // verus!

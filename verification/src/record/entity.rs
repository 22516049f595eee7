//! The record entity.

use vstd::prelude::*;
use chrono::NaiveDateTime;

verus! {

/// One financial record of a book. A candidate handed to the store carries
/// no id and no creation time; a stored row carries both.
#[derive(Debug, PartialEq)]
pub struct Record {
    id: Option<i64>,
    book_id: i32,
    sub_category_id: i32,
    amount: i32,
    memo: Option<String>,
    target_dt: NaiveDateTime,
    created_at: Option<NaiveDateTime>,
    asset_id: Option<i32>,
}

/// Mathematical view of a [`Record`]: the same fields, the memo as a
/// sequence of characters.
pub struct RecordView {
    pub id: Option<i64>,
    pub book_id: i32,
    pub sub_category_id: i32,
    pub amount: i32,
    pub memo: Option<Seq<char>>,
    pub target_dt: NaiveDateTime,
    pub created_at: Option<NaiveDateTime>,
    pub asset_id: Option<i32>,
}

/// The view of an optional text.
pub open spec fn text_view(text: Option<String>) -> Option<Seq<char>> {
    match text {
        Some(s) => Some(s@),
        None => None,
    }
}

impl View for Record {
    type V = RecordView;

    closed spec fn view(&self) -> RecordView {
        RecordView {
            id: self.id,
            book_id: self.book_id,
            sub_category_id: self.sub_category_id,
            amount: self.amount,
            memo: text_view(self.memo),
            target_dt: self.target_dt,
            created_at: self.created_at,
            asset_id: self.asset_id,
        }
    }
}

/// The views of a sequence of records, one for one.
pub open spec fn views(rows: Seq<Record>) -> Seq<RecordView> {
    rows.map_values(|row: Record| row@)
}

impl RecordView {
    /// The row that the store keeps for this candidate: the same amount,
    /// memo, target time, category and asset, under the book id that the
    /// authorization resolved, with the id and creation time that the store
    /// assigned. Neither the candidate's own book id, id or creation time
    /// reaches the row.
    pub open spec fn stored(self, book_id: i32, id: i64, created_at: NaiveDateTime) -> RecordView {
        RecordView {
            id: Some(id),
            book_id,
            sub_category_id: self.sub_category_id,
            amount: self.amount,
            memo: self.memo,
            target_dt: self.target_dt,
            created_at: Some(created_at),
            asset_id: self.asset_id,
        }
    }
}

impl Clone for Record {
    fn clone(&self) -> (copy: Self)
        ensures
            copy == *self,
    {
        let memo = match &self.memo {
            Some(s) => Some(s.clone()),
            None => None,
        };
        Record {
            id: self.id,
            book_id: self.book_id,
            sub_category_id: self.sub_category_id,
            amount: self.amount,
            memo,
            target_dt: self.target_dt,
            created_at: self.created_at,
            asset_id: self.asset_id,
        }
    }
}

impl Record {
    /// A candidate record without id, memo or creation time.
    pub fn new(
        book_id: i32,
        sub_category_id: i32,
        amount: i32,
        target_dt: NaiveDateTime,
        asset_id: Option<i32>,
    ) -> (record: Self)
        ensures
            record@ == (RecordView {
                id: None,
                book_id,
                sub_category_id,
                amount,
                memo: None,
                target_dt,
                created_at: None,
                asset_id,
            }),
    {
        Record {
            id: None,
            book_id,
            sub_category_id,
            amount,
            memo: None,
            target_dt,
            created_at: None,
            asset_id,
        }
    }

    /// The same record with its id replaced.
    pub fn id(self, id: Option<i64>) -> (record: Self)
        ensures
            record@ == (RecordView { id, ..self@ }),
    {
        Record { id, ..self }
    }

    /// The same record with its memo replaced.
    pub fn memo(self, memo: Option<String>) -> (record: Self)
        ensures
            record@ == (RecordView { memo: text_view(memo), ..self@ }),
    {
        Record { memo, ..self }
    }

    /// The same record with its creation time replaced.
    pub fn created_at(self, created_at: Option<NaiveDateTime>) -> (record: Self)
        ensures
            record@ == (RecordView { created_at, ..self@ }),
    {
        Record { created_at, ..self }
    }

    /// Ends a chain of builder calls; the record is returned as it is.
    pub fn build(self) -> (record: Self)
        ensures
            record == self,
    {
        self
    }

    /// The id, if the record has been stored.
    pub fn get_id(&self) -> (id: Option<i64>)
        ensures
            id == self@.id,
    {
        self.id
    }

    /// The id of the book.
    pub fn get_book_id(&self) -> (book_id: i32)
        ensures
            book_id == self@.book_id,
    {
        self.book_id
    }

    /// The id of the sub category.
    pub fn get_sub_category_id(&self) -> (sub_category_id: i32)
        ensures
            sub_category_id == self@.sub_category_id,
    {
        self.sub_category_id
    }

    /// The amount, in the minor unit of the currency.
    pub fn get_amount(&self) -> (amount: i32)
        ensures
            amount == self@.amount,
    {
        self.amount
    }

    /// The memo, if there is one.
    pub fn get_memo(&self) -> (memo: &Option<String>)
        ensures
            text_view(*memo) == self@.memo,
    {
        &self.memo
    }

    /// The time that the record is about.
    pub fn get_target_dt(&self) -> (target_dt: NaiveDateTime)
        ensures
            target_dt == self@.target_dt,
    {
        self.target_dt
    }

    /// The time at which the store wrote the row, if it has.
    pub fn get_created_at(&self) -> (created_at: Option<NaiveDateTime>)
        ensures
            created_at == self@.created_at,
    {
        self.created_at
    }

    /// The id of the asset, if one is named.
    pub fn get_asset_id(&self) -> (asset_id: Option<i32>)
        ensures
            asset_id == self@.asset_id,
    {
        self.asset_id
    }
}

} // verus!

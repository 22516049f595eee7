//! The outcome flags of one record-write transaction and their
//! classification into the caller-visible result.

use vstd::prelude::*;
use crate::errors::{CustomError, CustomErrorView};
use crate::errors::outcome_view;

verus! {

/// What one run of the write transaction reports: whether the writer was
/// authorized, whether the references were usable, the id of the record if
/// one was inserted, and the connects that were linked to it.
#[derive(Debug, PartialEq)]
pub struct InsertRecord {
    is_authorized: bool,
    record_id: Option<i64>,
    connect_ids: Vec<i32>,
    is_asset_exist: bool,
    is_category_exist: bool,
}

/// Mathematical view of an [`InsertRecord`].
pub struct InsertRecordView {
    pub is_authorized: bool,
    pub record_id: Option<i64>,
    pub connect_ids: Seq<i32>,
    pub is_asset_exist: bool,
    pub is_category_exist: bool,
}

impl View for InsertRecord {
    type V = InsertRecordView;

    closed spec fn view(&self) -> InsertRecordView {
        InsertRecordView {
            is_authorized: self.is_authorized,
            record_id: self.record_id,
            connect_ids: self.connect_ids@,
            is_asset_exist: self.is_asset_exist,
            is_category_exist: self.is_category_exist,
        }
    }
}

impl InsertRecordView {
    /// The caller-visible result of a transaction that reported these flags.
    ///
    /// The precedence is fixed: a missing authorization is reported ahead of
    /// any reference error, and an unusable asset ahead of an unusable
    /// category. With every flag set the result is the new record's id; flags
    /// that are all set without an id cannot come from a sound store and are
    /// reported as unexpected.
    pub open spec fn classify(self) -> Result<i64, CustomErrorView> {
        if !self.is_authorized {
            Err(CustomErrorView::Unauthorized("RecordRole"@))
        } else if !self.is_asset_exist {
            Err(CustomErrorView::NotFound("Asset"@))
        } else if !self.is_category_exist {
            Err(CustomErrorView::NotFound("Category"@))
        } else {
            match self.record_id {
                Some(id) => Ok(id),
                None => Err(CustomErrorView::Unexpected("record id missing"@)),
            }
        }
    }

    /// Every predicate of the transaction held.
    pub open spec fn all_hold(self) -> bool {
        self.is_authorized && self.is_asset_exist && self.is_category_exist
    }
}

impl InsertRecord {
    /// Puts the flags of one transaction together.
    pub fn new(
        is_authorized: bool,
        record_id: Option<i64>,
        connect_ids: Vec<i32>,
        is_asset_exist: bool,
        is_category_exist: bool,
    ) -> (flags: Self)
        ensures
            flags@ == (InsertRecordView {
                is_authorized,
                record_id,
                connect_ids: connect_ids@,
                is_asset_exist,
                is_category_exist,
            }),
    {
        InsertRecord { is_authorized, record_id, connect_ids, is_asset_exist, is_category_exist }
    }

    /// Whether the acting user held a write-capable role on the book.
    pub fn get_authorized(&self) -> (b: bool)
        ensures
            b == self@.is_authorized,
    {
        self.is_authorized
    }

    /// The id of the inserted record, if one was inserted.
    pub fn get_record_id(&self) -> (id: Option<i64>)
        ensures
            id == self@.record_id,
    {
        self.record_id
    }

    /// The connects that were linked to the inserted record.
    pub fn get_connects(&self) -> (ids: &Vec<i32>)
        ensures
            ids@ == self@.connect_ids,
    {
        &self.connect_ids
    }

    /// Whether the asset reference was absent or usable in the book.
    pub fn get_asset_exist(&self) -> (b: bool)
        ensures
            b == self@.is_asset_exist,
    {
        self.is_asset_exist
    }

    /// Whether the category reference was usable in the book.
    pub fn get_category_exist(&self) -> (b: bool)
        ensures
            b == self@.is_category_exist,
    {
        self.is_category_exist
    }

    /// Classifies the flags into the caller-visible result.
    pub fn into_result(self) -> (r: Result<i64, CustomError>)
        ensures
            outcome_view(r) == self@.classify(),
    {
        if !self.get_authorized() {
            Err(CustomError::Unauthorized("RecordRole".to_string()))
        } else if !self.get_asset_exist() {
            Err(CustomError::NotFound("Asset".to_string()))
        } else if !self.get_category_exist() {
            Err(CustomError::NotFound("Category".to_string()))
        } else {
            match self.get_record_id() {
                Some(id) => Ok(id),
                None => Err(CustomError::Unexpected("record id missing".to_string())),
            }
        }
    }
}

} // verus!

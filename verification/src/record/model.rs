//! The mathematical model of the store and of the record-write transaction.
//!
//! Everything here is specification: the tables as maps, sets and sequences
//! of rows, the predicates that guard a write, and the transaction as a
//! function from the state before to the state after and the result.

use vstd::prelude::*;
use chrono::NaiveDateTime;
use crate::errors::CustomErrorView;
use crate::record::entity::RecordView;
use crate::record::outcome::InsertRecordView;
use crate::record::role::RoleKind;

verus! {

/// The candidate connect ids of a call: those given, or none.
pub open spec fn candidates(connect_ids: Option<Vec<i32>>) -> Seq<i32> {
    match connect_ids {
        Some(ids) => ids@,
        None => Seq::empty(),
    }
}

/// The candidates that get linked: those that exist as connects, each once,
/// in the order of their first occurrence among the candidates.
pub open spec fn surviving(connects: Set<i32>, candidates: Seq<i32>) -> Seq<i32>
    decreases candidates.len(),
{
    if candidates.len() == 0 {
        Seq::empty()
    } else {
        let earlier = surviving(connects, candidates.drop_last());
        let last = candidates.last();
        if connects.contains(last) && !earlier.contains(last) {
            earlier.push(last)
        } else {
            earlier
        }
    }
}

/// Validity of the record and link rows under the newest record id.
pub open spec fn rows_wf(
    records: Seq<RecordView>,
    record_connects: Seq<(i64, i32)>,
    last_record_id: i64,
) -> bool {
    &&& 0 <= last_record_id
    &&& forall|i: int|
        0 <= i < records.len() ==> {
            &&& (#[trigger] records[i]).id is Some
            &&& 1 <= records[i].id->Some_0 <= last_record_id
            &&& records[i].created_at is Some
        }
    &&& forall|i: int, j: int|
        0 <= i < j < records.len() ==> (#[trigger] records[i]).id != (#[trigger] records[j]).id
    &&& forall|i: int|
        0 <= i < record_connects.len() ==> 1 <= (#[trigger] record_connects[i]).0 <= last_record_id
}

/// The predicate that a record row belongs to the book.
pub open spec fn in_book(book_id: i32) -> spec_fn(RecordView) -> bool {
    |row: RecordView| row.book_id == book_id
}

/// The predicate that a link row belongs to the record.
pub open spec fn of_record(record_id: i64) -> spec_fn((i64, i32)) -> bool {
    |link: (i64, i32)| link.0 == record_id
}

/// The connect id of a link row.
pub open spec fn connect_of() -> spec_fn((i64, i32)) -> i32 {
    |link: (i64, i32)| link.1
}

/// The link row of a connect to the record.
pub open spec fn link_to(record_id: i64) -> spec_fn(i32) -> (i64, i32) {
    |connect_id: i32| (record_id, connect_id)
}

/// The state of the store.
#[verifier::ext_equal]
pub struct LedgerView {
    /// The role of each (user id, book id) pair that has one.
    pub roles: Map<(i32, i32), RoleKind>,
    /// The owning book of each category; `None` marks a category that every
    /// book may use.
    pub categories: Map<i32, Option<i32>>,
    /// The owning book of each asset.
    pub assets: Map<i32, i32>,
    /// The ids of the connects that exist.
    pub connects: Set<i32>,
    /// The record rows, oldest first.
    pub records: Seq<RecordView>,
    /// The (record id, connect id) rows, oldest first.
    pub record_connects: Seq<(i64, i32)>,
    /// The id given to the newest record; 0 before the first.
    pub last_record_id: i64,
}

impl LedgerView {
    /// The store with no rows at all.
    pub open spec fn empty() -> LedgerView {
        LedgerView {
            roles: Map::empty(),
            categories: Map::empty(),
            assets: Map::empty(),
            connects: Set::empty(),
            records: Seq::empty(),
            record_connects: Seq::empty(),
            last_record_id: 0,
        }
    }

    /// Validity of a state: every record row carries an id and a creation
    /// time, record ids are positive, distinct and not above the newest one,
    /// and so is the record id of every link.
    pub open spec fn wf(self) -> bool {
        rows_wf(self.records, self.record_connects, self.last_record_id)
    }

    /// Whether the user holds a write-capable role on the book.
    pub open spec fn authorized(self, user_id: i32, book_id: i32) -> bool {
        self.roles.contains_key((user_id, book_id)) && self.roles[(user_id, book_id)].writes()
    }

    /// The scope of a call: the book that the user may write to, if any.
    pub open spec fn scope(self, user_id: i32, requested_book_id: i32) -> Option<i32> {
        if self.authorized(user_id, requested_book_id) {
            Some(requested_book_id)
        } else {
            None
        }
    }

    /// Whether the category can be used in the scope: it exists and is
    /// either global or owned by the book of the scope. Outside any scope
    /// only a global category is usable.
    pub open spec fn category_usable(self, scope: Option<i32>, category_ref: i32) -> bool {
        self.categories.contains_key(category_ref) && (self.categories[category_ref] is None
            || self.categories[category_ref] == scope)
    }

    /// Whether the asset can be used in the scope: it is absent, or it
    /// exists and is owned by the book of the scope. Outside any scope only
    /// an absent asset is usable.
    pub open spec fn asset_usable(self, scope: Option<i32>, asset_ref: Option<i32>) -> bool {
        match asset_ref {
            None => true,
            Some(id) => self.assets.contains_key(id) && scope == Some(self.assets[id]),
        }
    }

    /// The authorization resolver: the book id to use downstream, or the
    /// refusal.
    pub open spec fn resolve(self, user_id: i32, requested_book_id: i32) -> Result<
        i32,
        CustomErrorView,
    > {
        match self.scope(user_id, requested_book_id) {
            Some(book_id) => Ok(book_id),
            None => Err(CustomErrorView::Unauthorized("RecordRole"@)),
        }
    }

    /// The reference validator, for an authorized book. An unusable asset is
    /// reported ahead of an unusable category.
    pub open spec fn validate(
        self,
        authorized_book_id: i32,
        category_ref: i32,
        asset_ref: Option<i32>,
    ) -> Result<(), CustomErrorView> {
        if !self.asset_usable(Some(authorized_book_id), asset_ref) {
            Err(CustomErrorView::NotFound("Asset"@))
        } else if !self.category_usable(Some(authorized_book_id), category_ref) {
            Err(CustomErrorView::NotFound("Category"@))
        } else {
            Ok(())
        }
    }

    /// Whether every predicate of the write holds for this call.
    pub open spec fn admits(self, user_id: i32, record: RecordView) -> bool {
        let scope = self.scope(user_id, record.book_id);
        &&& scope is Some
        &&& self.category_usable(scope, record.sub_category_id)
        &&& self.asset_usable(scope, record.asset_id)
    }

    /// The flags of a call that wrote nothing.
    pub open spec fn refusal(self, user_id: i32, record: RecordView) -> InsertRecordView {
        let scope = self.scope(user_id, record.book_id);
        InsertRecordView {
            is_authorized: scope is Some,
            record_id: None,
            connect_ids: Seq::empty(),
            is_asset_exist: self.asset_usable(scope, record.asset_id),
            is_category_exist: self.category_usable(scope, record.sub_category_id),
        }
    }

    /// The state after the record writer has run: one more record row, under
    /// the given book id and the next record id.
    pub open spec fn write(self, book_id: i32, record: RecordView, now: NaiveDateTime) -> LedgerView
        recommends
            self.last_record_id < i64::MAX,
    {
        let id = (self.last_record_id + 1) as i64;
        LedgerView {
            records: self.records.push(record.stored(book_id, id, now)),
            last_record_id: id,
            ..self
        }
    }

    /// The state after the link writer has run: one more link row for each
    /// surviving candidate, in their order.
    pub open spec fn link(self, record_id: i64, candidates: Seq<i32>) -> LedgerView {
        LedgerView {
            record_connects: self.record_connects + surviving(self.connects, candidates).map_values(
                link_to(record_id),
            ),
            ..self
        }
    }

    /// The whole transaction as one atomic step: the state after it and what
    /// it reports, for a call made at the time `now`.
    ///
    /// Unless every predicate holds, the state stays as it is and the flags
    /// say which predicate failed. With every predicate holding, the store
    /// gives out the next record id, or fails as a whole when there is none
    /// left; then it writes the row and the links.
    pub open spec fn insert_record(
        self,
        user_id: i32,
        record: RecordView,
        candidates: Seq<i32>,
        now: NaiveDateTime,
    ) -> (LedgerView, Result<InsertRecordView, CustomErrorView>) {
        if !self.admits(user_id, record) {
            (self, Ok(self.refusal(user_id, record)))
        } else if self.last_record_id == i64::MAX {
            (self, Err(CustomErrorView::DatabaseError("record id sequence exhausted"@)))
        } else {
            let id = (self.last_record_id + 1) as i64;
            let book_id = self.scope(user_id, record.book_id)->Some_0;
            (
                self.write(book_id, record, now).link(id, candidates),
                Ok(
                    InsertRecordView {
                        is_authorized: true,
                        record_id: Some(id),
                        connect_ids: surviving(self.connects, candidates),
                        is_asset_exist: true,
                        is_category_exist: true,
                    },
                ),
            )
        }
    }

    /// The transaction with its flags classified: the state after the call
    /// and the caller-visible result.
    pub open spec fn save_record(
        self,
        user_id: i32,
        record: RecordView,
        candidates: Seq<i32>,
        now: NaiveDateTime,
    ) -> (LedgerView, Result<i64, CustomErrorView>) {
        let (after, outcome) = self.insert_record(user_id, record, candidates, now);
        match outcome {
            Ok(flags) => (after, flags.classify()),
            Err(e) => (after, Err(e)),
        }
    }

    /// The record rows of one book, oldest first.
    pub open spec fn records_of(self, book_id: i32) -> Seq<RecordView> {
        self.records.filter(in_book(book_id))
    }

    /// The connect ids linked to one record, oldest link first.
    pub open spec fn links_of(self, record_id: i64) -> Seq<i32> {
        self.record_connects.filter(of_record(record_id)).map_values(connect_of())
    }

    /// The row of the record with the given id, if there is one.
    pub open spec fn record_with(self, id: i64) -> Option<RecordView> {
        if exists|i: int| 0 <= i < self.records.len() && (#[trigger] self.records[i]).id == Some(id) {
            Some(
                self.records[choose|i: int|
                    0 <= i < self.records.len() && (#[trigger] self.records[i]).id == Some(id)],
            )
        } else {
            None
        }
    }
}

} // verus!

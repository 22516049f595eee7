//! The store in memory: the tables behind the model, and the record-write
//! transaction as an explicit sequence of checks and one conditional write.
//!
//! A `Ledger` is owned by one caller at a time, so a call runs from its
//! checks to its last write with nothing in between: the transaction is
//! atomic because no other step can interleave, and it leaves the store
//! untouched whenever it reports an error.

use vstd::prelude::*;
use chrono::NaiveDateTime;
use crate::errors::{CustomError, CustomErrorView};
use crate::errors::outcome_view;
use crate::record::entity::{Record, RecordView};
use crate::record::entity::views;
use crate::record::model::LedgerView;
use crate::record::role::RoleKind;
use crate::record::model::{candidates, connect_of, in_book, link_to, of_record, surviving};
use crate::record::outcome::{InsertRecord, InsertRecordView};

verus! {

struct RoleRow {
    user_id: i32,
    book_id: i32,
    kind: RoleKind,
}

struct CategoryRow {
    id: i32,
    book_id: Option<i32>,
}

struct AssetRow {
    id: i32,
    book_id: i32,
}

/// The role rows hold one row per pair, and the map says what they say.
spec fn roles_agree(rows: Seq<RoleRow>, map: Map<(i32, i32), RoleKind>) -> bool {
    &&& forall|i: int|
        0 <= i < rows.len() ==> {
            let row = #[trigger] rows[i];
            map.contains_key((row.user_id, row.book_id)) && map[(row.user_id, row.book_id)]
                == row.kind
        }
    &&& forall|k: (i32, i32)| #[trigger]
        map.contains_key(k) ==> exists|i: int|
            0 <= i < rows.len() && (#[trigger] rows[i]).user_id == k.0 && rows[i].book_id == k.1
    &&& forall|i: int, j: int|
        0 <= i < j < rows.len() ==> !((#[trigger] rows[i]).user_id == (#[trigger] rows[j]).user_id
            && rows[i].book_id == rows[j].book_id)
}

/// The category rows hold one row per id, and the map says what they say.
spec fn categories_agree(rows: Seq<CategoryRow>, map: Map<i32, Option<i32>>) -> bool {
    &&& forall|i: int|
        0 <= i < rows.len() ==> {
            let row = #[trigger] rows[i];
            map.contains_key(row.id) && map[row.id] == row.book_id
        }
    &&& forall|k: i32| #[trigger]
        map.contains_key(k) ==> exists|i: int| 0 <= i < rows.len() && (#[trigger] rows[i]).id == k
    &&& forall|i: int, j: int|
        0 <= i < j < rows.len() ==> (#[trigger] rows[i]).id != (#[trigger] rows[j]).id
}

/// The asset rows hold one row per id, and the map says what they say.
spec fn assets_agree(rows: Seq<AssetRow>, map: Map<i32, i32>) -> bool {
    &&& forall|i: int|
        0 <= i < rows.len() ==> {
            let row = #[trigger] rows[i];
            map.contains_key(row.id) && map[row.id] == row.book_id
        }
    &&& forall|k: i32| #[trigger]
        map.contains_key(k) ==> exists|i: int| 0 <= i < rows.len() && (#[trigger] rows[i]).id == k
    &&& forall|i: int, j: int|
        0 <= i < j < rows.len() ==> (#[trigger] rows[i]).id != (#[trigger] rows[j]).id
}

/// The view of what a run of the transaction returns.
pub open spec fn flags_view(r: Result<InsertRecord, CustomError>) -> Result<
    InsertRecordView,
    CustomErrorView,
> {
    match r {
        Ok(flags) => Ok(flags@),
        Err(e) => Err(e@),
    }
}

/// The store in memory.
pub struct Ledger {
    roles: Vec<RoleRow>,
    categories: Vec<CategoryRow>,
    assets: Vec<AssetRow>,
    connects: Vec<i32>,
    records: Vec<Record>,
    record_connects: Vec<(i64, i32)>,
    last_record_id: i64,
    role_map: Ghost<Map<(i32, i32), RoleKind>>,
    category_map: Ghost<Map<i32, Option<i32>>>,
    asset_map: Ghost<Map<i32, i32>>,
}

impl View for Ledger {
    type V = LedgerView;

    closed spec fn view(&self) -> LedgerView {
        LedgerView {
            roles: self.role_map@,
            categories: self.category_map@,
            assets: self.asset_map@,
            connects: self.connects@.to_set(),
            records: views(self.records@),
            record_connects: self.record_connects@,
            last_record_id: self.last_record_id,
        }
    }
}

impl Ledger {
    /// Validity of a store: its tables agree with its state, and the state
    /// is valid. Every constructor establishes it and every method keeps it.
    pub closed spec fn wf(&self) -> bool {
        &&& roles_agree(self.roles@, self.role_map@)
        &&& categories_agree(self.categories@, self.category_map@)
        &&& assets_agree(self.assets@, self.asset_map@)
        &&& self@.wf()
    }

    /// A store without rows.
    pub fn new() -> (ledger: Self)
        ensures
            ledger.wf(),
            ledger@ == LedgerView::empty(),
    {
        let ledger = Ledger {
            roles: Vec::new(),
            categories: Vec::new(),
            assets: Vec::new(),
            connects: Vec::new(),
            records: Vec::new(),
            record_connects: Vec::new(),
            last_record_id: 0,
            role_map: Ghost(Map::empty()),
            category_map: Ghost(Map::empty()),
            asset_map: Ghost(Map::empty()),
        };
        ledger
    }

    /// A store without rows whose record ids go on after `last_record_id`,
    /// as after a restart of the id sequence; `None` for a negative value,
    /// after which no id could follow.
    pub fn starting_after(last_record_id: i64) -> (ledger: Option<Self>)
        ensures
            match ledger {
                Some(ledger) => last_record_id >= 0 && ledger.wf() && ledger@ == (LedgerView {
                    last_record_id,
                    ..LedgerView::empty()
                }),
                None => last_record_id < 0,
            },
    {
        if last_record_id < 0 {
            return None;
        }
        let mut ledger = Ledger::new();
        ledger.last_record_id = last_record_id;
        Some(ledger)
    }

    /// Gives the user the role on the book, in place of the role held so
    /// far, if any: a pair of user and book has one role.
    pub fn set_role(&mut self, user_id: i32, book_id: i32, kind: RoleKind)
        requires
            old(self).wf(),
        ensures
            final(self).wf(),
            final(self)@ == (LedgerView {
                roles: old(self)@.roles.insert((user_id, book_id), kind),
                ..old(self)@
            }),
    {
        let at = self.role_index(user_id, book_id);
        let row = RoleRow { user_id, book_id, kind };
        match at {
            Some(i) => self.roles.set(i, row),
            None => self.roles.push(row),
        }
        self.role_map = Ghost(self.role_map@.insert((user_id, book_id), kind));
        proof {
            let rows = self.roles@;
            assert forall|k: (i32, i32)| #[trigger] self.role_map@.contains_key(k) implies exists|
                j: int,
            | 0 <= j < rows.len() && (#[trigger] rows[j]).user_id == k.0 && rows[j].book_id == k.1 by {
                if k == (user_id, book_id) {
                    let j = match at {
                        Some(i) => i as int,
                        None => self.roles@.len() - 1,
                    };
                    assert(rows[j].user_id == k.0 && rows[j].book_id == k.1);
                } else {
                    let j = choose|j: int|
                        0 <= j < old(self).roles@.len() && (#[trigger] old(self).roles@[j]).user_id
                            == k.0 && old(self).roles@[j].book_id == k.1;
                    assert(rows[j].user_id == k.0 && rows[j].book_id == k.1);
                }
            }
        }
    }

    /// Records the category as usable by the given book only, or by every
    /// book when no book is given. A category that exists already changes
    /// its owner.
    pub fn add_category(&mut self, id: i32, book_id: Option<i32>)
        requires
            old(self).wf(),
        ensures
            final(self).wf(),
            final(self)@ == (LedgerView {
                categories: old(self)@.categories.insert(id, book_id),
                ..old(self)@
            }),
    {
        let at = self.category_index(id);
        let row = CategoryRow { id, book_id };
        match at {
            Some(i) => self.categories.set(i, row),
            None => self.categories.push(row),
        }
        self.category_map = Ghost(self.category_map@.insert(id, book_id));
        proof {
            let rows = self.categories@;
            assert forall|k: i32| #[trigger] self.category_map@.contains_key(k) implies exists|
                j: int,
            | 0 <= j < rows.len() && (#[trigger] rows[j]).id == k by {
                if k == id {
                    let j = match at {
                        Some(i) => i as int,
                        None => self.categories@.len() - 1,
                    };
                    assert(rows[j].id == k);
                } else {
                    let j = choose|j: int|
                        0 <= j < old(self).categories@.len() && (#[trigger] old(
                            self,
                        ).categories@[j]).id == k;
                    assert(rows[j].id == k);
                }
            }
        }
    }

    /// Records the asset as owned by the given book. An asset that exists
    /// already changes its owner.
    pub fn add_asset(&mut self, id: i32, book_id: i32)
        requires
            old(self).wf(),
        ensures
            final(self).wf(),
            final(self)@ == (LedgerView {
                assets: old(self)@.assets.insert(id, book_id),
                ..old(self)@
            }),
    {
        let at = self.asset_index(id);
        let row = AssetRow { id, book_id };
        match at {
            Some(i) => self.assets.set(i, row),
            None => self.assets.push(row),
        }
        self.asset_map = Ghost(self.asset_map@.insert(id, book_id));
        proof {
            let rows = self.assets@;
            assert forall|k: i32| #[trigger] self.asset_map@.contains_key(k) implies exists|j: int|
                0 <= j < rows.len() && (#[trigger] rows[j]).id == k by {
                if k == id {
                    let j = match at {
                        Some(i) => i as int,
                        None => self.assets@.len() - 1,
                    };
                    assert(rows[j].id == k);
                } else {
                    let j = choose|j: int|
                        0 <= j < old(self).assets@.len() && (#[trigger] old(self).assets@[j]).id
                            == k;
                    assert(rows[j].id == k);
                }
            }
        }
    }

    /// Records that a connect with this id exists.
    pub fn add_connect(&mut self, id: i32)
        requires
            old(self).wf(),
        ensures
            final(self).wf(),
            final(self)@ == (LedgerView {
                connects: old(self)@.connects.insert(id),
                ..old(self)@
            }),
    {
        if !contains_id(&self.connects, id) {
            self.connects.push(id);
        }
        proof {
            old(self).connects@.lemma_push_to_set_commute(id);
        }
    }

    /// The place of the role row of the pair, if there is one.
    fn role_index(&self, user_id: i32, book_id: i32) -> (at: Option<usize>)
        ensures
            match at {
                Some(i) => i < self.roles@.len() && self.roles@[i as int].user_id == user_id
                    && self.roles@[i as int].book_id == book_id,
                None => forall|j: int|
                    0 <= j < self.roles@.len() ==> !((#[trigger] self.roles@[j]).user_id == user_id
                        && self.roles@[j].book_id == book_id),
            },
    {
        let mut i: usize = 0;
        while i < self.roles.len()
            invariant
                i <= self.roles@.len(),
                forall|j: int|
                    0 <= j < i ==> !((#[trigger] self.roles@[j]).user_id == user_id
                        && self.roles@[j].book_id == book_id),
            decreases self.roles@.len() - i,
        {
            if self.roles[i].user_id == user_id && self.roles[i].book_id == book_id {
                return Some(i);
            }
            i += 1;
        }
        None
    }

    /// The place of the category row with the id, if there is one.
    fn category_index(&self, id: i32) -> (at: Option<usize>)
        ensures
            match at {
                Some(i) => i < self.categories@.len() && self.categories@[i as int].id == id,
                None => forall|j: int|
                    0 <= j < self.categories@.len() ==> (#[trigger] self.categories@[j]).id != id,
            },
    {
        let mut i: usize = 0;
        while i < self.categories.len()
            invariant
                i <= self.categories@.len(),
                forall|j: int| 0 <= j < i ==> (#[trigger] self.categories@[j]).id != id,
            decreases self.categories@.len() - i,
        {
            if self.categories[i].id == id {
                return Some(i);
            }
            i += 1;
        }
        None
    }

    /// The place of the asset row with the id, if there is one.
    fn asset_index(&self, id: i32) -> (at: Option<usize>)
        ensures
            match at {
                Some(i) => i < self.assets@.len() && self.assets@[i as int].id == id,
                None => forall|j: int|
                    0 <= j < self.assets@.len() ==> (#[trigger] self.assets@[j]).id != id,
            },
    {
        let mut i: usize = 0;
        while i < self.assets.len()
            invariant
                i <= self.assets@.len(),
                forall|j: int| 0 <= j < i ==> (#[trigger] self.assets@[j]).id != id,
            decreases self.assets@.len() - i,
        {
            if self.assets[i].id == id {
                return Some(i);
            }
            i += 1;
        }
        None
    }

    /// The role of the user on the book, if a role row exists.
    pub fn role_of(&self, user_id: i32, book_id: i32) -> (role: Option<RoleKind>)
        requires
            self.wf(),
        ensures
            role is Some <==> self@.roles.contains_key((user_id, book_id)),
            role matches Some(kind) ==> kind == self@.roles[(user_id, book_id)],
    {
        match self.role_index(user_id, book_id) {
            Some(i) => Some(self.roles[i].kind),
            None => None,
        }
    }

    /// The owning book of the category, if the category exists: `Some(None)`
    /// for a global one.
    pub fn category_owner(&self, category_ref: i32) -> (owner: Option<Option<i32>>)
        requires
            self.wf(),
        ensures
            owner is Some <==> self@.categories.contains_key(category_ref),
            owner matches Some(book_id) ==> book_id == self@.categories[category_ref],
    {
        match self.category_index(category_ref) {
            Some(i) => Some(self.categories[i].book_id),
            None => None,
        }
    }

    /// The owning book of the asset, if the asset exists.
    pub fn asset_owner(&self, asset_ref: i32) -> (owner: Option<i32>)
        requires
            self.wf(),
        ensures
            owner is Some <==> self@.assets.contains_key(asset_ref),
            owner matches Some(book_id) ==> book_id == self@.assets[asset_ref],
    {
        match self.asset_index(asset_ref) {
            Some(i) => Some(self.assets[i].book_id),
            None => None,
        }
    }

    /// The authorization resolver. Succeeds only if the user has a role row
    /// for the requested book whose kind is not `Viewer`, and then returns
    /// the book id that every later step uses.
    pub fn resolve(&self, user_id: i32, requested_book_id: i32) -> (r: Result<i32, CustomError>)
        requires
            self.wf(),
        ensures
            outcome_view(r) == self@.resolve(user_id, requested_book_id),
    {
        match self.role_of(user_id, requested_book_id) {
            Some(kind) => {
                if kind.can_write() {
                    Ok(requested_book_id)
                } else {
                    Err(CustomError::Unauthorized("RecordRole".to_string()))
                }
            },
            None => Err(CustomError::Unauthorized("RecordRole".to_string())),
        }
    }

    /// Whether the category is usable in the scope.
    pub fn category_usable(&self, scope: Option<i32>, category_ref: i32) -> (usable: bool)
        requires
            self.wf(),
        ensures
            usable == self@.category_usable(scope, category_ref),
    {
        match self.category_owner(category_ref) {
            None => false,
            Some(None) => true,
            Some(Some(owner)) => match scope {
                Some(book_id) => owner == book_id,
                None => false,
            },
        }
    }

    /// Whether the asset is absent or usable in the scope.
    pub fn asset_usable(&self, scope: Option<i32>, asset_ref: Option<i32>) -> (usable: bool)
        requires
            self.wf(),
        ensures
            usable == self@.asset_usable(scope, asset_ref),
    {
        match asset_ref {
            None => true,
            Some(id) => match self.asset_owner(id) {
                None => false,
                Some(owner) => match scope {
                    Some(book_id) => owner == book_id,
                    None => false,
                },
            },
        }
    }

    /// The reference validator for an authorized book: whether the category
    /// and the asset, if one is given, can be used in that book. An unusable
    /// asset is reported ahead of an unusable category.
    pub fn validate(
        &self,
        authorized_book_id: i32,
        category_ref: i32,
        asset_ref: Option<i32>,
    ) -> (r: Result<(), CustomError>)
        requires
            self.wf(),
        ensures
            outcome_view(r) == self@.validate(authorized_book_id, category_ref, asset_ref),
    {
        if !self.asset_usable(Some(authorized_book_id), asset_ref) {
            Err(CustomError::NotFound("Asset".to_string()))
        } else if !self.category_usable(Some(authorized_book_id), category_ref) {
            Err(CustomError::NotFound("Category".to_string()))
        } else {
            Ok(())
        }
    }

    /// The record writer: inserts one row for the candidate under the
    /// authorized book id, with the next record id and the given creation
    /// time, and returns that id.
    fn write(&mut self, authorized_book_id: i32, record: Record, now: NaiveDateTime) -> (id: i64)
        requires
            old(self).wf(),
            old(self)@.last_record_id < i64::MAX,
        ensures
            final(self).wf(),
            final(self)@ == old(self)@.write(authorized_book_id, record@, now),
            id == final(self)@.last_record_id,
    {
        let ghost before = self@;
        let id: i64 = self.last_record_id + 1;
        let memo = match record.get_memo() {
            Some(text) => Some(text.clone()),
            None => None,
        };
        let row = Record::new(
            authorized_book_id,
            record.get_sub_category_id(),
            record.get_amount(),
            record.get_target_dt(),
            record.get_asset_id(),
        ).id(Some(id)).memo(memo).created_at(Some(now)).build();
        self.records.push(row);
        self.last_record_id = id;
        assert(self@ =~= before.write(authorized_book_id, record@, now));
        id
    }

    /// The link writer: links to the record each candidate that exists as a
    /// connect, once, and returns the ids it linked. Candidates that do not
    /// exist are dropped without an error.
    fn link(&mut self, record_id: i64, candidate_connect_ids: &Vec<i32>) -> (linked: Vec<i32>)
        requires
            old(self).wf(),
            1 <= record_id <= old(self)@.last_record_id,
        ensures
            final(self).wf(),
            final(self)@ == old(self)@.link(record_id, candidate_connect_ids@),
            linked@ == surviving(old(self)@.connects, candidate_connect_ids@),
    {
        let ghost before = self@;
        let ghost connects = self@.connects;
        let ghost tag = link_to(record_id);
        let mut linked: Vec<i32> = Vec::new();
        let mut i: usize = 0;
        while i < candidate_connect_ids.len()
            invariant
                self.wf(),
                i <= candidate_connect_ids@.len(),
                1 <= record_id <= before.last_record_id,
                tag == link_to(record_id),
                connects == before.connects,
                linked@ == surviving(connects, candidate_connect_ids@.take(i as int)),
                self@ == (LedgerView {
                    record_connects: before.record_connects + linked@.map_values(tag),
                    ..before
                }),
            decreases candidate_connect_ids@.len() - i,
        {
            let candidate = candidate_connect_ids[i];
            assert(candidate_connect_ids@.take(i + 1).drop_last() =~= candidate_connect_ids@.take(
                i as int,
            ));
            if self.has_connect(candidate) && !contains_id(&linked, candidate) {
                linked.push(candidate);
                self.record_connects.push((record_id, candidate));
            }
            i += 1;
        }
        assert(candidate_connect_ids@.take(i as int) =~= candidate_connect_ids@);
        linked
    }

    /// Runs the write transaction for a call made at the time `now` and
    /// reports its flags.
    ///
    /// Authorization, category and asset are evaluated first, the category
    /// and the asset in the scope that the authorization resolved. Only if
    /// all three hold is the record written, under the resolved book id, and
    /// are the surviving candidates linked to it. A call that finds a
    /// predicate false changes nothing and says in its flags which one.
    /// The one fault of the store itself is an exhausted record id sequence,
    /// reported as `DatabaseError`; it too changes nothing.
    pub fn insert_record(
        &mut self,
        user_id: i32,
        record: Record,
        connect_ids: Option<Vec<i32>>,
        now: NaiveDateTime,
    ) -> (r: Result<InsertRecord, CustomError>)
        requires
            old(self).wf(),
        ensures
            final(self).wf(),
            (final(self)@, flags_view(r)) == old(self)@.insert_record(
                user_id,
                record@,
                candidates(connect_ids),
                now,
            ),
    {
        let scope: Option<i32> = match self.resolve(user_id, record.get_book_id()) {
            Ok(book_id) => Some(book_id),
            Err(_) => None,
        };
        let is_category_exist = self.category_usable(scope, record.get_sub_category_id());
        let is_asset_exist = self.asset_usable(scope, record.get_asset_id());
        match scope {
            Some(authorized_book_id) => {
                if is_category_exist && is_asset_exist {
                    if self.last_record_id == i64::MAX {
                        return Err(
                            CustomError::DatabaseError("record id sequence exhausted".to_string()),
                        );
                    }
                    let id = self.write(authorized_book_id, record, now);
                    let linked = match connect_ids {
                        Some(ids) => self.link(id, &ids),
                        None => {
                            let none: Vec<i32> = Vec::new();
                            self.link(id, &none)
                        },
                    };
                    Ok(InsertRecord::new(true, Some(id), linked, true, true))
                } else {
                    Ok(InsertRecord::new(true, None, Vec::new(), is_asset_exist, is_category_exist))
                }
            },
            None => Ok(
                InsertRecord::new(false, None, Vec::new(), is_asset_exist, is_category_exist),
            ),
        }
    }

    /// Creates a record for a call made at the time `now`: runs the write
    /// transaction and classifies its flags.
    ///
    /// The result is the new record's id, or exactly one error: a missing
    /// authorization ahead of an unusable asset, that ahead of an unusable
    /// category, that ahead of a fault of the store. Whenever the result is
    /// an error the store is as it was.
    pub fn save_record_at(
        &mut self,
        user_id: i32,
        record: Record,
        connect_ids: Option<Vec<i32>>,
        now: NaiveDateTime,
    ) -> (r: Result<i64, CustomError>)
        requires
            old(self).wf(),
        ensures
            final(self).wf(),
            (final(self)@, outcome_view(r)) == old(self)@.save_record(
                user_id,
                record@,
                candidates(connect_ids),
                now,
            ),
    {
        match self.insert_record(user_id, record, connect_ids, now) {
            Ok(flags) => flags.into_result(),
            Err(e) => Err(e),
        }
    }

    /// All record rows, oldest first.
    pub fn get_list(&self) -> (rows: Vec<Record>)
        ensures
            views(rows@) == self@.records,
    {
        let mut rows: Vec<Record> = Vec::new();
        let mut i: usize = 0;
        while i < self.records.len()
            invariant
                i <= self.records@.len(),
                rows@ == self.records@.take(i as int),
            decreases self.records@.len() - i,
        {
            rows.push(self.records[i].clone());
            i += 1;
        }
        rows
    }

    /// The record row with the id, if there is one.
    pub fn get_by_id(&self, id: i64) -> (row: Option<Record>)
        requires
            self.wf(),
        ensures
            match row {
                Some(found) => self@.record_with(id) == Some(found@),
                None => self@.record_with(id) is None,
            },
    {
        let ghost rows = self@.records;
        let mut i: usize = 0;
        while i < self.records.len()
            invariant
                self.wf(),
                rows == self@.records,
                i <= self.records@.len(),
                forall|j: int| 0 <= j < i ==> (#[trigger] rows[j]).id != Some(id),
            decreases self.records@.len() - i,
        {
            let found = match self.records[i].get_id() {
                Some(row_id) => row_id == id,
                None => false,
            };
            if found {
                proof {
                    let at = choose|j: int|
                        0 <= j < rows.len() && (#[trigger] rows[j]).id == Some(id);
                    if i < at {
                        assert(rows[i as int].id != rows[at].id);
                    }
                }
                return Some(self.records[i].clone());
            }
            i += 1;
        }
        None
    }

    /// The number of record rows of the book.
    pub fn record_count(&self, book_id: i32) -> (count: usize)
        ensures
            count == self@.records_of(book_id).len(),
    {
        let ghost rows = self@.records;
        let ghost of_book = in_book(book_id);
        let mut count: usize = 0;
        let mut i: usize = 0;
        assert(rows.take(0).filter(of_book) =~= Seq::<RecordView>::empty()) by {
            reveal(Seq::filter);
        }
        while i < self.records.len()
            invariant
                rows == self@.records,
                rows.len() == self.records@.len(),
                of_book == in_book(book_id),
                i <= self.records@.len(),
                count == rows.take(i as int).filter(of_book).len(),
                count <= i,
            decreases self.records@.len() - i,
        {
            proof {
                rows.lemma_take_succ_push(i as int);
                rows.take(i as int).lemma_filter_push(rows[i as int], of_book);
            }
            if self.records[i].get_book_id() == book_id {
                count += 1;
            }
            i += 1;
        }
        assert(rows.take(i as int) =~= rows);
        count
    }

    /// The connect ids linked to the record, oldest link first.
    pub fn connects_of(&self, record_id: i64) -> (connect_ids: Vec<i32>)
        ensures
            connect_ids@ == self@.links_of(record_id),
    {
        let ghost links = self.record_connects@;
        let ghost linked = of_record(record_id);
        let ghost connect = connect_of();
        let mut connect_ids: Vec<i32> = Vec::new();
        let mut i: usize = 0;
        assert(links.take(0).filter(linked) =~= Seq::<(i64, i32)>::empty()) by {
            reveal(Seq::filter);
        }
        while i < self.record_connects.len()
            invariant
                links == self.record_connects@,
                linked == of_record(record_id),
                connect == connect_of(),
                i <= links.len(),
                connect_ids@ == links.take(i as int).filter(linked).map_values(connect),
            decreases links.len() - i,
        {
            let link = self.record_connects[i];
            proof {
                links.lemma_take_succ_push(i as int);
                links.take(i as int).lemma_filter_push(link, linked);
                links.take(i as int).filter(linked).lemma_push_map_commute(connect, link);
            }
            if link.0 == record_id {
                connect_ids.push(link.1);
            }
            i += 1;
        }
        assert(links.take(i as int) =~= links);
        connect_ids
    }

    /// Whether a connect with this id exists.
    pub fn has_connect(&self, connect_id: i32) -> (found: bool)
        ensures
            found == self@.connects.contains(connect_id),
    {
        contains_id(&self.connects, connect_id)
    }
}

/// Whether the id occurs among the ids.
fn contains_id(ids: &Vec<i32>, id: i32) -> (found: bool)
    ensures
        found == ids@.contains(id),
{
    let mut i: usize = 0;
    while i < ids.len()
        invariant
            i <= ids@.len(),
            forall|j: int| 0 <= j < i ==> ids@[j] != id,
        decreases ids@.len() - i,
    {
        if ids[i] == id {
            return true;
        }
        i += 1;
    }
    false
}

} // verus!

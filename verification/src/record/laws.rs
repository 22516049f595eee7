//! What holds of every run of the record-write transaction, proved over the
//! model of the store.

use vstd::prelude::*;
use chrono::NaiveDateTime;
use crate::errors::CustomErrorView;
use crate::record::entity::RecordView;
use crate::record::model::LedgerView;
use crate::record::repository::runs_transaction;
use crate::record::role::RoleKind;
use crate::record::model::{connect_of, link_to, of_record, surviving};

verus! {

/// The surviving candidates are exactly the candidates that exist as
/// connects, and none of them occurs twice.
pub proof fn surviving_are_the_existing_candidates(connects: Set<i32>, candidates: Seq<i32>)
    ensures
        surviving(connects, candidates).no_duplicates(),
        forall|id: i32|
            surviving(connects, candidates).contains(id) <==> candidates.contains(id)
                && connects.contains(id),
    decreases candidates.len(),
{
    let kept = surviving(connects, candidates);
    if candidates.len() > 0 {
        let front = candidates.drop_last();
        let last = candidates.last();
        let earlier = surviving(connects, front);
        surviving_are_the_existing_candidates(connects, front);
        assert forall|id: i32|
            kept.contains(id) <==> candidates.contains(id) && connects.contains(id) by {
            if candidates.contains(id) {
                let i = choose|i: int| 0 <= i < candidates.len() && candidates[i] == id;
                if i < candidates.len() - 1 {
                    assert(front[i] == id);
                } else {
                    assert(id == last);
                }
            }
            if front.contains(id) {
                let i = choose|i: int| 0 <= i < front.len() && front[i] == id;
                assert(candidates[i] == id);
            }
            if earlier.contains(id) && kept.len() > earlier.len() {
                let i = choose|i: int| 0 <= i < earlier.len() && earlier[i] == id;
                assert(kept[i] == id);
            }
            if kept.contains(id) && !earlier.contains(id) {
                let i = choose|i: int| 0 <= i < kept.len() && kept[i] == id;
                assert(i == earlier.len());
                assert(candidates[candidates.len() - 1] == id);
            }
            if id == last && connects.contains(last) && !earlier.contains(last) {
                assert(kept[kept.len() - 1] == id);
            }
        }
    }
}

/// The two reference errors are told apart by their text: an unusable asset
/// is never reported as an unusable category.
pub proof fn reference_errors_differ()
    ensures
        CustomErrorView::NotFound("Asset"@) != CustomErrorView::NotFound("Category"@),
{
    reveal_strlit("Asset");
    reveal_strlit("Category");
    assert("Category"@.len() == 8);
}

/// A filter keeps a sequence whole when every element passes.
proof fn filter_keeps_all<A>(s: Seq<A>, pred: spec_fn(A) -> bool)
    requires
        forall|i: int| 0 <= i < s.len() ==> pred(#[trigger] s[i]),
    ensures
        s.filter(pred) == s,
    decreases s.len(),
{
    reveal(Seq::filter);
    if s.len() > 0 {
        filter_keeps_all(s.drop_last(), pred);
    }
}

/// A filter leaves nothing when no element passes.
proof fn filter_keeps_none<A>(s: Seq<A>, pred: spec_fn(A) -> bool)
    requires
        forall|i: int| 0 <= i < s.len() ==> !pred(#[trigger] s[i]),
    ensures
        s.filter(pred) == Seq::<A>::empty(),
    decreases s.len(),
{
    reveal(Seq::filter);
    if s.len() > 0 {
        filter_keeps_none(s.drop_last(), pred);
    }
}

/// A user without a role row for the book, or with the role `Viewer`, is
/// refused as unauthorized, whatever the references are, and the call leaves
/// the store as it was: the book has the record rows it had.
pub proof fn unauthorized_writes_nothing(
    s: LedgerView,
    user_id: i32,
    record: RecordView,
    candidates: Seq<i32>,
    now: NaiveDateTime,
)
    requires
        !s.roles.contains_key((user_id, record.book_id)) || s.roles[(user_id, record.book_id)]
            == RoleKind::Viewer,
    ensures
        s.save_record(user_id, record, candidates, now).1 == Err::<i64, CustomErrorView>(
            CustomErrorView::Unauthorized("RecordRole"@),
        ),
        s.save_record(user_id, record, candidates, now).0 == s,
        s.save_record(user_id, record, candidates, now).0.records_of(record.book_id).len()
            == s.records_of(record.book_id).len(),
{
}

/// For an authorized user with a usable asset reference, a category that is
/// neither global nor owned by the book is reported as not found, whether it
/// does not exist or exists under another book, and nothing is written.
pub proof fn foreign_category_is_not_found(
    s: LedgerView,
    user_id: i32,
    record: RecordView,
    candidates: Seq<i32>,
    now: NaiveDateTime,
)
    requires
        s.authorized(user_id, record.book_id),
        s.asset_usable(Some(record.book_id), record.asset_id),
        !s.categories.contains_key(record.sub_category_id) || (s.categories[record.sub_category_id]
            matches Some(owner) && owner != record.book_id),
    ensures
        s.save_record(user_id, record, candidates, now).1 == Err::<i64, CustomErrorView>(
            CustomErrorView::NotFound("Category"@),
        ),
        s.save_record(user_id, record, candidates, now).0 == s,
{
}

/// For an authorized user, an asset that is not owned by the book is
/// reported as not found, whether it does not exist or belongs to another
/// book, and nothing is written. This holds with a usable category and with
/// an unusable one: the asset is reported first.
pub proof fn foreign_asset_is_not_found(
    s: LedgerView,
    user_id: i32,
    record: RecordView,
    candidates: Seq<i32>,
    now: NaiveDateTime,
)
    requires
        s.authorized(user_id, record.book_id),
        record.asset_id matches Some(asset) && (!s.assets.contains_key(asset) || s.assets[asset]
            != record.book_id),
    ensures
        s.save_record(user_id, record, candidates, now).1 == Err::<i64, CustomErrorView>(
            CustomErrorView::NotFound("Asset"@),
        ),
        s.save_record(user_id, record, candidates, now).0 == s,
{
}

/// Atomicity: a call that ends in an error, of whatever kind, leaves the
/// store exactly as it was, with no new record row and no new link row.
pub proof fn error_leaves_store_unchanged(
    s: LedgerView,
    user_id: i32,
    record: RecordView,
    candidates: Seq<i32>,
    now: NaiveDateTime,
)
    ensures
        s.save_record(user_id, record, candidates, now).1 is Err ==> s.save_record(
            user_id,
            record,
            candidates,
            now,
        ).0 == s,
{
}

/// No error is reported other than the five of the taxonomy's order: a call
/// succeeds exactly when every predicate holds and a record id is left.
pub proof fn success_needs_every_predicate(
    s: LedgerView,
    user_id: i32,
    record: RecordView,
    candidates: Seq<i32>,
    now: NaiveDateTime,
)
    ensures
        s.save_record(user_id, record, candidates, now).1 is Ok <==> s.authorized(
            user_id,
            record.book_id,
        ) && s.category_usable(Some(record.book_id), record.sub_category_id) && s.asset_usable(
            Some(record.book_id),
            record.asset_id,
        ) && s.last_record_id < i64::MAX,
{
}

/// A successful call writes exactly one record row: the candidate's amount,
/// memo, target time, category and asset, under the book for which the user
/// is authorized, with a record id that no row had before.
pub proof fn success_writes_one_row_under_the_authorized_book(
    s: LedgerView,
    user_id: i32,
    record: RecordView,
    candidates: Seq<i32>,
    now: NaiveDateTime,
)
    requires
        s.wf(),
        s.save_record(user_id, record, candidates, now).1 is Ok,
    ensures
        ({
            let (after, result) = s.save_record(user_id, record, candidates, now);
            let id = result->Ok_0;
            &&& id == s.last_record_id + 1
            &&& after.records == s.records.push(record.stored(record.book_id, id, now))
            &&& s.authorized(user_id, after.records.last().book_id)
            &&& s.record_with(id) is None
            &&& after.record_with(id) == Some(record.stored(record.book_id, id, now))
            &&& after.roles == s.roles
            &&& after.categories == s.categories
            &&& after.assets == s.assets
            &&& after.connects == s.connects
        }),
{
    let (after, result) = s.save_record(user_id, record, candidates, now);
    let id = result->Ok_0;
    let row = record.stored(record.book_id, id, now);
    assert(after.records[s.records.len() as int] == row);
    let at = choose|i: int| 0 <= i < after.records.len() && (#[trigger] after.records[i]).id == Some(id);
    if at < s.records.len() {
        assert(after.records[at] == s.records[at]);
    }
}

/// Link filtering: with every other predicate holding, a call succeeds
/// whether or not all candidates exist, and the links of the new record are
/// exactly the candidates that exist as connects, each once; no link of
/// another record is added or removed.
pub proof fn success_links_the_existing_candidates(
    s: LedgerView,
    user_id: i32,
    record: RecordView,
    candidates: Seq<i32>,
    now: NaiveDateTime,
)
    requires
        s.wf(),
        s.admits(user_id, record),
        s.last_record_id < i64::MAX,
    ensures
        ({
            let (after, result) = s.save_record(user_id, record, candidates, now);
            &&& result == Ok::<i64, CustomErrorView>((s.last_record_id + 1) as i64)
            &&& after.links_of(result->Ok_0) == surviving(s.connects, candidates)
            &&& after.links_of(result->Ok_0).no_duplicates()
            &&& forall|id: i32|
                after.links_of(result->Ok_0).contains(id) <==> candidates.contains(id)
                    && s.connects.contains(id)
            &&& forall|other: i64| other != result->Ok_0 ==> after.links_of(other) == s.links_of(other)
        }),
{
    let (after, result) = s.save_record(user_id, record, candidates, now);
    let id = (s.last_record_id + 1) as i64;
    let kept = surviving(s.connects, candidates);
    let added = kept.map_values(link_to(id));
    surviving_are_the_existing_candidates(s.connects, candidates);
    assert forall|other: i64| true implies after.links_of(other) == (if other == id {
        kept
    } else {
        s.links_of(other)
    }) by {
        let of_other = of_record(other);
        let connect = connect_of();
        Seq::filter_distributes_over_add(s.record_connects, added, of_other);
        if other == id {
            filter_keeps_none(s.record_connects, of_other);
            filter_keeps_all(added, of_other);
            assert(added.map_values(connect) =~= kept);
        } else {
            filter_keeps_none(added, of_other);
        }
    }
}

/// Atomicity at the boundary of any store: whether a call ran the
/// transaction or met a fault of the engine, a call that ends in an error
/// leaves the state of the store as it was.
pub proof fn failed_call_leaves_state_unchanged(
    before: LedgerView,
    user_id: i32,
    record: RecordView,
    candidates: Seq<i32>,
    after: LedgerView,
    result: Result<i64, CustomErrorView>,
)
    requires
        runs_transaction(before, user_id, record, candidates, after, result),
        result is Err,
    ensures
        after == before,
{
}

/// Every run of the transaction keeps a valid store valid.
pub proof fn save_record_keeps_validity(
    s: LedgerView,
    user_id: i32,
    record: RecordView,
    candidates: Seq<i32>,
    now: NaiveDateTime,
)
    requires
        s.wf(),
    ensures
        s.save_record(user_id, record, candidates, now).0.wf(),
{
    let after = s.save_record(user_id, record, candidates, now).0;
    if after != s {
        let id = (s.last_record_id + 1) as i64;
        let added = surviving(s.connects, candidates).map_values(link_to(id));
        assert forall|i: int| 0 <= i < after.record_connects.len() implies 1 <= (
        #[trigger] after.record_connects[i]).0 <= after.last_record_id by {
            if i < s.record_connects.len() {
                assert(after.record_connects[i] == s.record_connects[i]);
            } else {
                assert(after.record_connects[i] == added[i - s.record_connects.len()]);
            }
        }
    }
}

} // verus!

use account_book::errors::CustomError;
use account_book::record::entity::Record;
use account_book::record::ledger::Ledger;
use account_book::record::role::RoleKind;
use account_book::record::repository::{save_record, SaveRecordRepo};
use chrono::NaiveDateTime;

fn at(text: &str) -> NaiveDateTime {
    NaiveDateTime::parse_from_str(text, "%Y-%m-%d %H:%M:%S").unwrap()
}

/// User 1 owns book 1, user 2 may only view it, user 3 edits book 2.
/// Category 18 is global, 40 belongs to book 1, 41 to book 2.
/// Asset 5 belongs to book 1, asset 6 to book 2. Connects 1, 2 and 3 exist.
fn seeded() -> Ledger {
    let mut ledger = Ledger::new();
    ledger.set_role(1, 1, RoleKind::Owner);
    ledger.set_role(2, 1, RoleKind::Viewer);
    ledger.set_role(3, 2, RoleKind::Editor);
    ledger.add_category(18, None);
    ledger.add_category(40, Some(1));
    ledger.add_category(41, Some(2));
    ledger.add_asset(5, 1);
    ledger.add_asset(6, 2);
    ledger.add_connect(1);
    ledger.add_connect(2);
    ledger.add_connect(3);
    ledger
}

fn candidate(book_id: i32, category: i32, asset: Option<i32>) -> Record {
    Record::new(book_id, category, 16300, at("2024-09-08 00:00:00"), asset)
}

#[test]
fn check_save_record_success() {
    let mut pool = seeded();
    let user_id = 1;
    let record = Record::new(1, 18, 16300, at("2024-08-01 00:00:00"), None);

    let result = save_record(&mut pool, user_id, record, Some(vec![1]));
    let inserted_id = result.map_err(|e| println!("{:?}", e)).unwrap();

    let row = pool.get_by_id(inserted_id).unwrap();
    assert_eq!(Some(inserted_id), row.get_id());
    assert_eq!(&None, row.get_memo());
    assert_eq!(pool.connects_of(inserted_id), vec![1]);
}

#[test]
fn check_success_without_connect() {
    let mut pool = seeded();
    let user_id = 1;
    let record = Record::new(1, 18, 16300, at("2024-08-02 00:00:00"), None);

    let result = save_record(&mut pool, user_id, record, None);
    let inserted_id = result.map_err(|e| println!("{:?}", e)).unwrap();

    let row = pool.get_by_id(inserted_id).unwrap();
    assert_eq!(Some(inserted_id), row.get_id());
    assert!(pool.connects_of(inserted_id).is_empty());
}

#[test]
fn check_category_not_found() {
    let mut pool = seeded();
    let user_id = 1;
    let record = Record::new(1, -32, 16300, at("2024-09-08 00:00:00"), None);

    let result = save_record(&mut pool, user_id, record, None);

    assert!(result.is_err());
    let err_type = match result.err().unwrap() {
        CustomError::NotFound(_) => true,
        _ => false,
    };
    assert!(err_type)
}

#[test]
fn check_book_not_found() {
    let mut pool = seeded();
    let user_id = 1;
    let record = Record::new(-32, 18, 16300, at("2024-09-08 00:00:00"), None);

    let result = save_record(&mut pool, user_id, record, None);

    assert!(result.is_err());
    let err_type = match result.err().unwrap() {
        CustomError::Unauthorized(_) => true,
        _ => false,
    };
    assert!(err_type)
}

#[test]
fn check_asset_not_found() {
    let mut pool = seeded();
    let user_id = 1;
    let record = Record::new(1, 18, 16300, at("2024-09-08 00:00:00"), Some(-32));

    let result = save_record(&mut pool, user_id, record, None);

    assert!(result.is_err());
    let err_type = match result.err().unwrap() {
        CustomError::NotFound(_) => true,
        _ => false,
    };
    assert!(err_type)
}

#[test]
fn check_unauthorized() {
    let mut pool = seeded();
    let user_id = 2;
    let record = Record::new(1, 18, 16300, at("2024-09-08 00:00:00"), None);

    let result = save_record(&mut pool, user_id, record, None);

    assert!(result.is_err());
    let err_type = match result.err().unwrap() {
        CustomError::Unauthorized(_) => true,
        _ => false,
    };
    assert!(err_type)
}

#[test]
fn viewer_is_refused_with_the_role_check_named() {
    let mut ledger = seeded();
    let result = ledger.save_record_at(2, candidate(1, 18, None), None, at("2024-09-09 10:00:00"));
    assert_eq!(result, Err(CustomError::Unauthorized("RecordRole".to_string())));
}

#[test]
fn user_without_role_row_is_refused_and_book_keeps_its_rows() {
    let mut ledger = seeded();
    let first = ledger.save_record_at(1, candidate(1, 18, None), None, at("2024-09-09 10:00:00"));
    assert_eq!(first, Ok(1));
    assert_eq!(ledger.record_count(1), 1);

    // user 3 has a role on book 2 only, user 9 has none at all
    for user_id in [3, 9] {
        let result =
            ledger.save_record_at(user_id, candidate(1, 18, None), Some(vec![1]), at("2024-09-09 11:00:00"));
        assert_eq!(result, Err(CustomError::Unauthorized("RecordRole".to_string())));
        assert_eq!(ledger.record_count(1), 1);
        assert_eq!(ledger.get_list().len(), 1);
        assert!(ledger.connects_of(2).is_empty());
    }
}

#[test]
fn category_of_another_book_looks_like_a_missing_one() {
    let mut ledger = seeded();
    let foreign = ledger.save_record_at(1, candidate(1, 41, Some(5)), None, at("2024-09-09 10:00:00"));
    let missing = ledger.save_record_at(1, candidate(1, -32, Some(5)), None, at("2024-09-09 10:00:00"));
    assert_eq!(foreign, Err(CustomError::NotFound("Category".to_string())));
    assert_eq!(missing, foreign);
    assert_eq!(ledger.get_list().len(), 0);
}

#[test]
fn category_of_the_book_and_global_category_are_usable() {
    let mut ledger = seeded();
    assert_eq!(ledger.save_record_at(1, candidate(1, 40, None), None, at("2024-09-09 10:00:00")), Ok(1));
    assert_eq!(ledger.save_record_at(1, candidate(1, 18, None), None, at("2024-09-09 10:00:00")), Ok(2));
    assert_eq!(ledger.save_record_at(3, candidate(2, 18, None), None, at("2024-09-09 10:00:00")), Ok(3));
    assert_eq!(ledger.save_record_at(3, candidate(2, 41, Some(6)), None, at("2024-09-09 10:00:00")), Ok(4));
    assert_eq!(ledger.record_count(1), 2);
    assert_eq!(ledger.record_count(2), 2);
}

#[test]
fn asset_of_another_book_looks_like_a_missing_one() {
    let mut ledger = seeded();
    let foreign = ledger.save_record_at(1, candidate(1, 18, Some(6)), None, at("2024-09-09 10:00:00"));
    let missing = ledger.save_record_at(1, candidate(1, 18, Some(-32)), None, at("2024-09-09 10:00:00"));
    assert_eq!(foreign, Err(CustomError::NotFound("Asset".to_string())));
    assert_eq!(missing, foreign);
    assert_eq!(ledger.get_list().len(), 0);
}

#[test]
fn unauthorized_is_reported_ahead_of_reference_errors() {
    let mut ledger = seeded();
    let result = ledger.save_record_at(2, candidate(1, -32, Some(-32)), None, at("2024-09-09 10:00:00"));
    assert_eq!(result, Err(CustomError::Unauthorized("RecordRole".to_string())));
}

#[test]
fn asset_is_reported_ahead_of_category() {
    let mut ledger = seeded();
    let result = ledger.save_record_at(1, candidate(1, -32, Some(-32)), None, at("2024-09-09 10:00:00"));
    assert_eq!(result, Err(CustomError::NotFound("Asset".to_string())));
}

#[test]
fn flags_of_a_refused_call_say_which_predicate_failed() {
    let mut ledger = seeded();
    let now = at("2024-09-09 10:00:00");

    // unauthorized: only a global category and an absent asset still count as usable
    let flags = ledger.insert_record(2, candidate(1, 18, None), Some(vec![1]), now).unwrap();
    assert_eq!(
        (flags.get_authorized(), flags.get_category_exist(), flags.get_asset_exist(), flags.get_record_id()),
        (false, true, true, None)
    );
    let flags = ledger.insert_record(2, candidate(1, 40, Some(5)), None, now).unwrap();
    assert_eq!(
        (flags.get_authorized(), flags.get_category_exist(), flags.get_asset_exist(), flags.get_record_id()),
        (false, false, false, None)
    );
    assert!(flags.get_connects().is_empty());

    // authorized, but the category belongs to book 2
    let flags = ledger.insert_record(1, candidate(1, 41, Some(5)), None, now).unwrap();
    assert_eq!(
        (flags.get_authorized(), flags.get_category_exist(), flags.get_asset_exist(), flags.get_record_id()),
        (true, false, true, None)
    );

    // everything holds
    let flags = ledger.insert_record(1, candidate(1, 40, Some(5)), Some(vec![3, 8]), now).unwrap();
    assert_eq!(
        (flags.get_authorized(), flags.get_category_exist(), flags.get_asset_exist(), flags.get_record_id()),
        (true, true, true, Some(1))
    );
    assert_eq!(flags.get_connects(), &vec![3]);
}

#[test]
fn error_leaves_no_row_and_no_link() {
    let mut ledger = seeded();
    let now = at("2024-09-09 10:00:00");
    assert_eq!(ledger.save_record_at(1, candidate(1, 18, None), Some(vec![1, 2]), now), Ok(1));

    let refused = [
        (2, candidate(1, 18, None)),
        (1, candidate(1, -32, None)),
        (1, candidate(1, 18, Some(6))),
        (1, candidate(7, 18, None)),
    ];
    for (user_id, record) in refused {
        assert!(ledger.save_record_at(user_id, record, Some(vec![1, 2, 3]), now).is_err());
        assert_eq!(ledger.get_list().len(), 1);
        assert_eq!(ledger.connects_of(1), vec![1, 2]);
        assert!(ledger.connects_of(2).is_empty());
    }
    // the id that the refused calls did not take is the next one given out
    assert_eq!(ledger.save_record_at(1, candidate(1, 18, None), None, now), Ok(2));
}

#[test]
fn only_existing_connects_are_linked() {
    let mut ledger = seeded();
    let now = at("2024-09-09 10:00:00");
    let result = ledger.save_record_at(1, candidate(1, 18, None), Some(vec![9, 3, -1, 1, 44]), now);
    assert_eq!(result, Ok(1));
    assert_eq!(ledger.connects_of(1), vec![3, 1]);
}

#[test]
fn a_candidate_given_twice_is_linked_once() {
    let mut ledger = seeded();
    let now = at("2024-09-09 10:00:00");
    let result = ledger.save_record_at(1, candidate(1, 18, None), Some(vec![2, 2, 1, 2, 1]), now);
    assert_eq!(result, Ok(1));
    assert_eq!(ledger.connects_of(1), vec![2, 1]);
}

#[test]
fn candidates_that_all_miss_still_succeed() {
    let mut ledger = seeded();
    let now = at("2024-09-09 10:00:00");
    assert_eq!(ledger.save_record_at(1, candidate(1, 18, None), Some(vec![70, 71]), now), Ok(1));
    assert!(ledger.connects_of(1).is_empty());
    assert_eq!(ledger.save_record_at(1, candidate(1, 18, None), Some(vec![]), now), Ok(2));
    assert!(ledger.connects_of(2).is_empty());
}

#[test]
fn links_of_other_records_stay_as_they_are() {
    let mut ledger = seeded();
    let now = at("2024-09-09 10:00:00");
    assert_eq!(ledger.save_record_at(1, candidate(1, 18, None), Some(vec![1]), now), Ok(1));
    assert_eq!(ledger.save_record_at(1, candidate(1, 18, None), Some(vec![2, 3]), now), Ok(2));
    assert_eq!(ledger.connects_of(1), vec![1]);
    assert_eq!(ledger.connects_of(2), vec![2, 3]);
}

#[test]
fn row_is_written_under_the_authorized_book_with_the_candidates_values() {
    let mut ledger = seeded();
    let target = at("2024-08-01 12:30:00");
    let now = at("2024-09-09 10:00:00");
    let record = Record::new(1, 40, -2500, target, Some(5))
        .memo(Some("감자탕".to_string()))
        .id(Some(777))
        .created_at(Some(at("1999-01-01 00:00:00")))
        .build();
    assert_eq!(ledger.save_record_at(1, record, None, now), Ok(1));

    assert!(ledger.get_by_id(777).is_none());
    let row = ledger.get_by_id(1).unwrap();
    assert_eq!(row.get_id(), Some(1));
    assert_eq!(row.get_book_id(), 1);
    assert_eq!(row.get_sub_category_id(), 40);
    assert_eq!(row.get_amount(), -2500);
    assert_eq!(row.get_memo(), &Some("감자탕".to_string()));
    assert_eq!(row.get_target_dt(), target);
    assert_eq!(row.get_created_at(), Some(now));
    assert_eq!(row.get_asset_id(), Some(5));
}

#[test]
fn record_ids_count_up_from_one() {
    let mut ledger = seeded();
    let now = at("2024-09-09 10:00:00");
    for expected in 1..=5 {
        assert_eq!(ledger.save_record_at(1, candidate(1, 18, None), None, now), Ok(expected));
    }
    assert_eq!(ledger.get_list().len(), 5);
}

#[test]
fn exhausted_id_sequence_is_a_database_error_and_writes_nothing() {
    let mut ledger = Ledger::starting_after(i64::MAX).unwrap();
    ledger.set_role(1, 1, RoleKind::Owner);
    ledger.add_category(18, None);
    ledger.add_connect(1);
    let now = at("2024-09-09 10:00:00");

    let result = ledger.save_record_at(1, candidate(1, 18, None), Some(vec![1]), now);
    assert_eq!(result, Err(CustomError::DatabaseError("record id sequence exhausted".to_string())));
    assert_eq!(ledger.get_list().len(), 0);

    // the predicates are still reported first
    let result = ledger.save_record_at(2, candidate(1, 18, None), None, now);
    assert_eq!(result, Err(CustomError::Unauthorized("RecordRole".to_string())));
    let result = ledger.save_record_at(1, candidate(1, 19, None), None, now);
    assert_eq!(result, Err(CustomError::NotFound("Category".to_string())));
}

#[test]
fn last_id_of_the_sequence_can_still_be_given_out() {
    let mut ledger = Ledger::starting_after(i64::MAX - 1).unwrap();
    ledger.set_role(1, 1, RoleKind::Owner);
    ledger.add_category(18, None);
    let now = at("2024-09-09 10:00:00");
    assert_eq!(ledger.save_record_at(1, candidate(1, 18, None), None, now), Ok(i64::MAX));
    assert!(ledger.save_record_at(1, candidate(1, 18, None), None, now).is_err());
    assert!(Ledger::starting_after(-1).is_none());
}

#[test]
fn save_record_stamps_the_row_with_the_clock() {
    let mut ledger = seeded();
    let before = chrono::Utc::now().naive_utc();
    let id = save_record(&mut ledger, 1, candidate(1, 18, None), None).unwrap();
    let after = chrono::Utc::now().naive_utc();
    let created_at = ledger.get_by_id(id).unwrap().get_created_at().unwrap();
    assert!(before <= created_at && created_at <= after);
}

#[test]
fn ledger_serves_as_a_save_record_repo() {
    fn through<T: SaveRecordRepo>(repo: &mut T, user_id: i32, record: Record) -> Result<i64, CustomError> {
        repo.save_record(user_id, record, Some(vec![1]))
    }
    let mut ledger = seeded();
    assert_eq!(through(&mut ledger, 1, candidate(1, 18, None)), Ok(1));
    assert_eq!(
        through(&mut ledger, 2, candidate(1, 18, None)),
        Err(CustomError::Unauthorized("RecordRole".to_string()))
    );
    assert_eq!(ledger.connects_of(1), vec![1]);
}

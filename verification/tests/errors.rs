use account_book::errors::{CustomError, EngineFault};
use account_book::record::outcome::InsertRecord;
use account_book::reply::{status_of_creation, status_of_read};

fn flags(authorized: bool, asset: bool, category: bool, id: Option<i64>) -> InsertRecord {
    InsertRecord::new(authorized, id, vec![], asset, category)
}

#[test]
fn flags_are_classified_by_fixed_precedence() {
    let unauthorized = Err(CustomError::Unauthorized("RecordRole".to_string()));
    let asset = Err(CustomError::NotFound("Asset".to_string()));
    let category = Err(CustomError::NotFound("Category".to_string()));

    for id in [None, Some(3)] {
        for a in [false, true] {
            for c in [false, true] {
                assert_eq!(flags(false, a, c, id).into_result(), unauthorized);
            }
        }
        assert_eq!(flags(true, false, false, id).into_result(), asset);
        assert_eq!(flags(true, false, true, id).into_result(), asset);
        assert_eq!(flags(true, true, false, id).into_result(), category);
    }
    assert_eq!(flags(true, true, true, Some(3)).into_result(), Ok(3));
    assert_eq!(flags(true, true, true, Some(i64::MIN)).into_result(), Ok(i64::MIN));
}

#[test]
fn flags_that_all_hold_without_an_id_are_unexpected() {
    assert_eq!(
        flags(true, true, true, None).into_result(),
        Err(CustomError::Unexpected("record id missing".to_string()))
    );
}

#[test]
fn flags_give_back_what_they_were_made_of() {
    let made = InsertRecord::new(true, Some(12), vec![4, 5], false, true);
    assert!(made.get_authorized());
    assert_eq!(made.get_record_id(), Some(12));
    assert_eq!(made.get_connects(), &vec![4, 5]);
    assert!(!made.get_asset_exist());
    assert!(made.get_category_exist());
}

#[test]
fn engine_faults_are_classified_by_who_reported_them() {
    assert_eq!(
        CustomError::from_fault(EngineFault::Database("duplicate key".to_string())),
        CustomError::DatabaseError("duplicate key".to_string())
    );
    assert_eq!(
        CustomError::from_fault(EngineFault::Other("pool timed out".to_string())),
        CustomError::Unexpected("pool timed out".to_string())
    );
}

#[test]
fn each_kind_of_error_has_its_status() {
    assert_eq!(CustomError::Unauthorized("RecordRole".to_string()).status_code(), 403);
    assert_eq!(CustomError::NotFound("Category".to_string()).status_code(), 404);
    assert_eq!(CustomError::Duplicated("Book".to_string()).status_code(), 400);
    assert_eq!(CustomError::DatabaseError("x".to_string()).status_code(), 500);
    assert_eq!(CustomError::Unexpected("y".to_string()).status_code(), 500);
}

#[test]
fn each_kind_of_error_carries_its_text() {
    assert_eq!(CustomError::Unauthorized("RecordRole".to_string()).detail(), "RecordRole");
    assert_eq!(CustomError::NotFound("Asset".to_string()).detail(), "Asset");
    assert_eq!(CustomError::Duplicated("Book".to_string()).detail(), "Book");
    assert_eq!(CustomError::DatabaseError("x".to_string()).detail(), "x");
    assert_eq!(CustomError::Unexpected(String::new()).detail(), "");
    let e = CustomError::NotFound("Asset".to_string());
    assert_eq!(e.clone(), e);
}

#[test]
fn answers_map_to_created_ok_or_the_errors_status() {
    let created: Result<i32, CustomError> = Ok(1);
    let missing: Result<i32, CustomError> = Err(CustomError::NotFound("Category".to_string()));
    let duplicate: Result<i32, CustomError> = Err(CustomError::Duplicated("Book".to_string()));
    assert_eq!(status_of_creation(&created), 201);
    assert_eq!(status_of_creation(&missing), 404);
    assert_eq!(status_of_creation(&duplicate), 400);
    assert_eq!(status_of_read(&created), 200);
    assert_eq!(status_of_read(&missing), 404);
}

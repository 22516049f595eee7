use std::sync::Arc;

use account_book::book::{
    create_book, read_book_types, Book, BookType, CreateBookUsecase, CreateBookUsecaseImpl, GetBookTypeRepo,
    NewBook, ReadBookTypeUsecase, ReadBookTypeUsecaseImpl, SaveBookRepo,
};
use account_book::errors::CustomError;
use account_book::record::entity::Record;
use account_book::record::repository::{delete_outcome, DeleteRecordRepo, GetRecordRepo};
use account_book::record::search::{Search, SearchParams};
use account_book::record::usecase::{
    delete_record, read_record, read_records, DeleteRecordUsecase, DeleteRecordUsecaseImpl, ReadRecordUsecase,
    ReadRecordUsecaseImpl,
};
use chrono::{NaiveDate, NaiveDateTime};

fn at(text: &str) -> NaiveDateTime {
    NaiveDateTime::parse_from_str(text, "%Y-%m-%d %H:%M:%S").unwrap()
}

/// Answers like a store, and fails the test when it is asked anything but
/// what the test expects.
struct BookStore {
    expected_book: Book,
    expected_user: i32,
    answer: Result<i32, CustomError>,
}

impl SaveBookRepo for BookStore {
    fn save_book(&self, book: Book, user_id: i32) -> Result<i32, CustomError> {
        assert_eq!(book, self.expected_book);
        assert_eq!(user_id, self.expected_user);
        self.answer.clone()
    }
}

struct BookTypeStore {
    answer: Result<Vec<BookType>, CustomError>,
}

impl GetBookTypeRepo for BookTypeStore {
    fn get_book_types(&self) -> Result<Vec<BookType>, CustomError> {
        self.answer.clone()
    }

    fn get_book_type_by_name(&self, name: &str) -> Result<BookType, CustomError> {
        match &self.answer {
            Ok(types) => match types.iter().find(|t| t.get_name() == name) {
                Some(found) => Ok(found.clone()),
                None => Err(CustomError::NotFound("BookType".to_string())),
            },
            Err(e) => Err(e.clone()),
        }
    }
}

struct RecordStore {
    expected_user: i32,
    expected_book: i32,
    expected_query: Option<Search>,
    rows: Vec<Record>,
}

impl GetRecordRepo for RecordStore {
    fn get_list(&self, user_id: i32, book_id: i32, search_query: Search) -> Result<Vec<Record>, CustomError> {
        assert_eq!(user_id, self.expected_user);
        assert_eq!(book_id, self.expected_book);
        assert_eq!(Some(search_query), self.expected_query);
        Ok(self.rows.clone())
    }

    fn get_by_id(&self, user_id: i32, record_id: i64) -> Result<Record, CustomError> {
        assert_eq!(user_id, self.expected_user);
        match self.rows.iter().find(|row| row.get_id() == Some(record_id)) {
            Some(row) => Ok(row.clone()),
            None => Err(CustomError::NotFound("Record".to_string())),
        }
    }
}

struct DeletingStore {
    existing: Vec<i64>,
}

impl DeleteRecordRepo for DeletingStore {
    fn delete_record(&self, id: i64) -> Result<(), String> {
        let rows_affected = self.existing.iter().filter(|e| **e == id).count() as u64;
        delete_outcome(id, rows_affected)
    }
}

fn three_rows() -> Vec<Record> {
    vec![
        Record::new(1, 18, 15000, at("2024-09-08 15:30:27"), None).id(Some(1)).build(),
        Record::new(1, 18, 15000, at("2024-09-08 15:30:27"), None).id(Some(2)).build(),
        Record::new(1, 18, 15000, at("2024-09-08 15:30:27"), None).id(Some(3)).build(),
    ]
}

#[test]
fn check_create_book_success() {
    let new_book = NewBook::new("새 가계부".to_string(), 1);
    let user_id = 1;

    let mock_repo = BookStore { expected_book: new_book.to_entity(), expected_user: user_id, answer: Ok(1) };
    let usecase = CreateBookUsecaseImpl::new(mock_repo);

    let result = usecase.create_book(&new_book, user_id);
    assert!(result.as_ref().map_err(|e| println!("{:?}", e)).is_ok());

    assert_eq!(result.unwrap(), 1);
}

#[test]
fn check_create_book_failure() {
    let user_id = 1;
    let new_book = NewBook::new("새 가계부".to_string(), 1);

    let mock_repo = BookStore {
        expected_book: new_book.to_entity(),
        expected_user: user_id,
        answer: Err(CustomError::Unexpected("에러 발생".to_string())),
    };
    let usecase = CreateBookUsecaseImpl::new(mock_repo);

    let result = usecase.create_book(&new_book, user_id);

    assert!(result.is_err())
}

#[test]
fn create_book_hands_the_store_the_entity_of_the_request() {
    let new_book = NewBook::new("여행".to_string(), 3);
    let expected = Book::new("여행".to_string(), 3);
    assert_eq!(new_book.to_entity(), expected);
    assert_eq!(expected.get_id(), None);
    assert_eq!(expected.get_name(), "여행");
    assert_eq!(expected.get_type_id(), 3);
    assert_eq!(Book::new("여행".to_string(), 3).id(Some(4)).get_id(), Some(4));

    let repo = BookStore {
        expected_book: expected,
        expected_user: 12,
        answer: Err(CustomError::Duplicated("Book".to_string())),
    };
    assert_eq!(create_book(&repo, &new_book, 12), Err(CustomError::Duplicated("Book".to_string())));
}

#[test]
fn check_get_book_types_success() {
    let mock_repo = BookTypeStore {
        answer: Ok(vec![
            BookType::new(1, "개인".to_string()),
            BookType::new(2, "커플".to_string()),
            BookType::new(3, "기업".to_string()),
        ]),
    };

    let result = read_book_types(&mock_repo);
    assert!(result.is_ok());
    let result = result.unwrap();

    assert_eq!(result.len(), 3)
}

#[test]
fn check_get_book_types_failure() {
    let mock_repo = BookTypeStore { answer: Err(CustomError::Unexpected("에러 발생".to_string())) };

    let result = read_book_types(&mock_repo);

    assert!(result.is_err())
}

#[test]
fn book_types_come_back_as_the_store_gave_them() {
    let types = vec![BookType::new(2, "커플".to_string()), BookType::new(1, "개인".to_string())];
    let usecase = ReadBookTypeUsecaseImpl::new(BookTypeStore { answer: Ok(types.clone()) });
    assert_eq!(usecase.read_book_types(), Ok(types));
    assert_eq!(BookType::new(2, "커플".to_string()).get_id(), 2);
}

#[test]
fn check_read_records_success() {
    let user_id = 1;
    let book_id = 1;
    let start_dt = NaiveDate::parse_from_str("2024-09-01", "%Y-%m-%d").unwrap();
    let params = SearchParams::new(start_dt, "M".to_string(), None, None);

    let mock_repo = RecordStore {
        expected_user: user_id,
        expected_book: book_id,
        expected_query: Some(params.to_query()),
        rows: three_rows(),
    };

    let result = read_records::<RecordStore>(&mock_repo, user_id, book_id, params);
    assert!(result.as_ref().map_err(|e| println!("{:?}", e)).is_ok());
    let result = result.unwrap();

    assert_eq!(result.len(), 3);
}

#[test]
fn check_read_record_success() {
    let user_id = 1;
    let record_id = 1;

    let mock_repo = RecordStore {
        expected_user: user_id,
        expected_book: 1,
        expected_query: None,
        rows: vec![Record::new(1, 18, 15200, at("2024-09-27 15:30:47"), None).id(Some(record_id)).build()],
    };

    let result = read_record(&mock_repo, user_id, record_id);
    assert!(result.as_ref().map_err(|e| println!("{:?}", e)).is_ok());
    let result = result.unwrap();

    assert_eq!(result.get_id(), Some(record_id));
}

#[test]
fn read_usecase_asks_the_store_with_the_same_criteria() {
    let start_dt = NaiveDate::parse_from_str("2024-02-29", "%Y-%m-%d").unwrap();
    let params = SearchParams::new(start_dt, "W".to_string(), Some(4), Some(18));
    let query = params.to_query();
    assert_eq!(query, Search::new(start_dt, "W".to_string(), Some(4), Some(18)));
    assert_eq!(query.get_start_dt(), start_dt);
    assert_eq!(query.get_period(), "W");
    assert_eq!(query.get_base_id(), Some(4));
    assert_eq!(query.get_sub_id(), Some(18));

    let usecase = ReadRecordUsecaseImpl::new(RecordStore {
        expected_user: 5,
        expected_book: 9,
        expected_query: Some(query),
        rows: three_rows(),
    });
    let ids: Vec<Option<i64>> = usecase.read_records(5, 9, params).unwrap().iter().map(|r| r.get_id()).collect();
    assert_eq!(ids, vec![Some(1), Some(2), Some(3)]);
    assert_eq!(usecase.read_record(5, 2).unwrap().get_id(), Some(2));
    assert_eq!(usecase.read_record(5, 4).err(), Some(CustomError::NotFound("Record".to_string())));
}

#[test]
fn check_delete_record_success() {
    let id = 1;
    let mock_repo = DeletingStore { existing: vec![1] };

    let result = delete_record(&mock_repo, id);

    assert!(result.is_ok())
}

#[test]
fn check_id_not_found() {
    let no_id = -32;
    let mock_repo = DeletingStore { existing: vec![1] };

    let result = delete_record(&mock_repo, no_id);

    assert!(result.is_err());
    assert_eq!(result, Err("-32 id not found".to_string()));
}

#[test]
fn check_delete_record_not_found() {
    let no_id = -32i64;

    let result = delete_outcome(no_id, 0);

    assert!(result.is_err());
}

#[test]
fn delete_usecase_hands_back_the_stores_answer() {
    let usecase = DeleteRecordUsecaseImpl::new(Arc::new(DeletingStore { existing: vec![4, 9] }));
    assert_eq!(usecase.delete_record(9), Ok(()));
    assert_eq!(usecase.delete_record(5), Err("5 id not found".to_string()));
}

#[test]
fn deletion_outcome_depends_on_the_rows_removed() {
    assert_eq!(delete_outcome(7, 1), Ok(()));
    assert_eq!(delete_outcome(7, u64::MAX), Ok(()));
    assert_eq!(delete_outcome(7, 0), Err("7 id not found".to_string()));
    assert_eq!(delete_outcome(0, 0), Err("0 id not found".to_string()));
    assert_eq!(delete_outcome(i64::MIN, 0), Err("-9223372036854775808 id not found".to_string()));
}

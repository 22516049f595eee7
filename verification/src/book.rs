//! Books: the shared ledgers, their kinds, and the use cases that create
//! and list them over a repository.

use vstd::prelude::*;
use crate::errors::CustomError;

verus! {

/// A request to create a book.
#[derive(Debug, PartialEq)]
pub struct NewBook {
    name: String,
    type_id: i16,
}

/// A book as it is stored.
#[derive(Debug, PartialEq)]
pub struct Book {
    id: Option<i32>,
    name: String,
    type_id: i16,
}

/// Mathematical view of a book, of the entity and of the request.
pub struct BookView {
    pub id: Option<i32>,
    pub name: Seq<char>,
    pub type_id: i16,
}

impl View for Book {
    type V = BookView;

    closed spec fn view(&self) -> BookView {
        BookView { id: self.id, name: self.name@, type_id: self.type_id }
    }
}

impl View for NewBook {
    type V = BookView;

    closed spec fn view(&self) -> BookView {
        BookView { id: None, name: self.name@, type_id: self.type_id }
    }
}

impl Clone for NewBook {
    fn clone(&self) -> (copy: Self)
        ensures
            copy == *self,
    {
        NewBook { name: self.name.clone(), type_id: self.type_id }
    }
}

impl Clone for Book {
    fn clone(&self) -> (copy: Self)
        ensures
            copy == *self,
    {
        Book { id: self.id, name: self.name.clone(), type_id: self.type_id }
    }
}

impl Book {
    /// A book that has no id yet.
    pub fn new(name: String, type_id: i16) -> (book: Self)
        ensures
            book@ == (BookView { id: None, name: name@, type_id }),
    {
        Book { id: None, name, type_id }
    }

    /// The same book with its id replaced.
    pub fn id(self, id: Option<i32>) -> (book: Self)
        ensures
            book@ == (BookView { id, ..self@ }),
    {
        Book { id, ..self }
    }

    /// The id, if the book has been stored.
    pub fn get_id(&self) -> (id: Option<i32>)
        ensures
            id == self@.id,
    {
        self.id
    }

    /// The name.
    pub fn get_name(&self) -> (name: &String)
        ensures
            name@ == self@.name,
    {
        &self.name
    }

    /// The id of the kind.
    pub fn get_type_id(&self) -> (type_id: i16)
        ensures
            type_id == self@.type_id,
    {
        self.type_id
    }
}

impl NewBook {
    /// Puts the given fields together.
    pub fn new(name: String, type_id: i16) -> (request: Self)
        ensures
            request@ == (BookView { id: None, name: name@, type_id }),
    {
        NewBook { name, type_id }
    }

    /// The name.
    pub fn get_name(&self) -> (name: &String)
        ensures
            name@ == self@.name,
    {
        &self.name
    }

    /// The id of the kind.
    pub fn get_type_id(&self) -> (type_id: i16)
        ensures
            type_id == self@.type_id,
    {
        self.type_id
    }

    /// The book that this request asks for: the same name and kind, no id.
    pub fn to_entity(&self) -> (book: Book)
        ensures
            book@ == self@,
    {
        Book::new(self.name.clone(), self.type_id)
    }
}

/// A store that can save books.
pub trait SaveBookRepo {
    /// Saves the book for the user and returns the id of the new book.
    fn save_book(&self, book: Book, user_id: i32) -> Result<i32, CustomError>;
}

/// The use case of creating a book.
pub trait CreateBookUsecase {
    /// Creates the book that the request asks for and returns its id.
    fn create_book(&self, new_book: &NewBook, user_id: i32) -> Result<i32, CustomError>;
}

/// The use case of creating a book over a store.
pub struct CreateBookUsecaseImpl<T: SaveBookRepo> {
    repository: T,
}

/// Whether `answer` is an answer that the store may give when it is asked to
/// save, for the user, the book that the request describes.
pub open spec fn saved_as_asked<T: SaveBookRepo>(
    repository: T,
    new_book: BookView,
    user_id: i32,
    answer: Result<i32, CustomError>,
) -> bool {
    exists|book: Book|
        book@ == new_book && #[trigger] call_ensures(
            T::save_book,
            (&repository, book, user_id),
            answer,
        )
}

impl<T: SaveBookRepo> CreateBookUsecaseImpl<T> {
    /// The store behind this use case.
    pub closed spec fn repository(&self) -> T {
        self.repository
    }

    /// The use case over the given store.
    pub fn new(repository: T) -> (usecase: Self)
        ensures
            usecase.repository() == repository,
    {
        Self { repository }
    }
}

impl<T: SaveBookRepo> CreateBookUsecase for CreateBookUsecaseImpl<T> {
    fn create_book(&self, new_book: &NewBook, user_id: i32) -> (answer: Result<i32, CustomError>)
        ensures
            saved_as_asked(self.repository(), new_book@, user_id, answer),
    {
        create_book(&self.repository, new_book, user_id)
    }
}

/// Creates a book: turns the request into the entity and has the store save
/// it for the user. The answer is the store's answer to exactly that entity
/// and user.
pub fn create_book<T: SaveBookRepo>(repository: &T, new_book: &NewBook, user_id: i32) -> (answer:
    Result<i32, CustomError>)
    ensures
        saved_as_asked(*repository, new_book@, user_id, answer),
{
    let book = new_book.to_entity();
    repository.save_book(book, user_id)
}

/// A kind of book, such as personal, couple or company.
#[derive(Debug, PartialEq)]
pub struct BookType {
    id: i16,
    name: String,
}

/// Mathematical view of a kind of book.
pub struct BookTypeView {
    pub id: i16,
    pub name: Seq<char>,
}

impl View for BookType {
    type V = BookTypeView;

    closed spec fn view(&self) -> BookTypeView {
        BookTypeView { id: self.id, name: self.name@ }
    }
}

impl Clone for BookType {
    fn clone(&self) -> (copy: Self)
        ensures
            copy == *self,
    {
        BookType { id: self.id, name: self.name.clone() }
    }
}

impl BookType {
    /// Puts the given fields together.
    pub fn new(id: i16, name: String) -> (book_type: Self)
        ensures
            book_type@ == (BookTypeView { id, name: name@ }),
    {
        BookType { id, name }
    }

    /// The id.
    pub fn get_id(&self) -> (id: i16)
        ensures
            id == self@.id,
    {
        self.id
    }

    /// The name.
    pub fn get_name(&self) -> (name: &String)
        ensures
            name@ == self@.name,
    {
        &self.name
    }
}

/// A store that can read the kinds of book.
pub trait GetBookTypeRepo {
    /// All kinds of book.
    fn get_book_types(&self) -> Result<Vec<BookType>, CustomError>;

    /// The kind of book with the name.
    fn get_book_type_by_name(&self, name: &str) -> Result<BookType, CustomError>;
}

/// The use case of listing the kinds of book.
pub trait ReadBookTypeUsecase {
    /// All kinds of book.
    fn read_book_types(&self) -> Result<Vec<BookType>, CustomError>;
}

/// The use case of listing the kinds of book over a store.
pub struct ReadBookTypeUsecaseImpl<T: GetBookTypeRepo> {
    repository: T,
}

impl<T: GetBookTypeRepo> ReadBookTypeUsecaseImpl<T> {
    /// The store behind this use case.
    pub closed spec fn repository(&self) -> T {
        self.repository
    }

    /// The use case over the given store.
    pub fn new(repository: T) -> (usecase: Self)
        ensures
            usecase.repository() == repository,
    {
        Self { repository }
    }
}

impl<T: GetBookTypeRepo> ReadBookTypeUsecase for ReadBookTypeUsecaseImpl<T> {
    fn read_book_types(&self) -> (answer: Result<Vec<BookType>, CustomError>)
        ensures
            call_ensures(T::get_book_types, (&self.repository(),), answer),
    {
        read_book_types(&self.repository)
    }
}

/// Lists the kinds of book: hands back the store's answer.
pub fn read_book_types<T: GetBookTypeRepo>(repository: &T) -> (answer: Result<
    Vec<BookType>,
    CustomError,
>)
    ensures
        call_ensures(T::get_book_types, (repository,), answer),
{
    repository.get_book_types()
}

} // verus!

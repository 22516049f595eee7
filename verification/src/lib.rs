//! Verified core of a shared expense-book service.
//!
//! Books are shared ledgers whose members hold roles. The heart of the crate
//! is the authorized record write: one atomic step that checks the writer's
//! role, checks that the category and the asset belong to the book, inserts
//! the record under the authorized book id and links the connects that exist.
//! [`record::ledger::Ledger`] runs that step in memory; a database-backed
//! store shares the classification of its outcome flags through
//! [`record::outcome::InsertRecord`].

pub mod book;
pub mod category;
pub mod errors;
pub mod record;
pub mod reply;
pub mod text;
pub mod user;

//! Financial records: the entity, the write transaction and its outcome.

pub mod clock;
pub mod entity;
pub mod laws;
pub mod ledger;
pub mod model;
pub mod outcome;
pub mod repository;
pub mod role;
pub mod search;
pub mod usecase;

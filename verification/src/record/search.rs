//! The criteria of a record search.

use vstd::prelude::*;
use chrono::NaiveDate;

verus! {

/// `chrono::NaiveDate`, a calendar date without a zone. Declared so that it
/// can stand in fields and signatures; its contents stay hidden from the
/// verifier.
#[verifier::external_type_specification]
#[verifier::external_body]
pub struct ExNaiveDate(chrono::NaiveDate);

/// The criteria of a search as the caller gives them.
#[derive(Debug, PartialEq)]
pub struct SearchParams {
    start_dt: NaiveDate,
    period: String,
    base_id: Option<i16>,
    sub_id: Option<i32>,
}

/// The criteria of a search as a store takes them.
#[derive(Debug, PartialEq)]
pub struct Search {
    start_dt: NaiveDate,
    period: String,
    base_id: Option<i16>,
    sub_id: Option<i32>,
}

/// Mathematical view of the criteria of a search: the first day, the code of
/// the period that starts there, and the categories to keep, if any are
/// named.
pub struct SearchView {
    pub start_dt: NaiveDate,
    pub period: Seq<char>,
    pub base_id: Option<i16>,
    pub sub_id: Option<i32>,
}

impl View for SearchParams {
    type V = SearchView;

    closed spec fn view(&self) -> SearchView {
        SearchView {
            start_dt: self.start_dt,
            period: self.period@,
            base_id: self.base_id,
            sub_id: self.sub_id,
        }
    }
}

impl View for Search {
    type V = SearchView;

    closed spec fn view(&self) -> SearchView {
        SearchView {
            start_dt: self.start_dt,
            period: self.period@,
            base_id: self.base_id,
            sub_id: self.sub_id,
        }
    }
}

impl Search {
    /// Puts the given fields together.
    pub fn new(start_dt: NaiveDate, period: String, base_id: Option<i16>, sub_id: Option<i32>) -> (query:
        Self)
        ensures
            query@ == (SearchView { start_dt, period: period@, base_id, sub_id }),
    {
        Search { start_dt, period, base_id, sub_id }
    }

    /// The first day of the search.
    pub fn get_start_dt(&self) -> (start_dt: NaiveDate)
        ensures
            start_dt == self@.start_dt,
    {
        self.start_dt
    }

    /// The code of the period that starts on the first day.
    pub fn get_period(&self) -> (period: &String)
        ensures
            period@ == self@.period,
    {
        &self.period
    }

    /// The id of the base category to keep, if one is named.
    pub fn get_base_id(&self) -> (base_id: Option<i16>)
        ensures
            base_id == self@.base_id,
    {
        self.base_id
    }

    /// The id of the sub category to keep, if one is named.
    pub fn get_sub_id(&self) -> (sub_id: Option<i32>)
        ensures
            sub_id == self@.sub_id,
    {
        self.sub_id
    }
}

impl SearchParams {
    /// Puts the given fields together.
    pub fn new(start_dt: NaiveDate, period: String, base_id: Option<i16>, sub_id: Option<i32>) -> (params:
        Self)
        ensures
            params@ == (SearchView { start_dt, period: period@, base_id, sub_id }),
    {
        SearchParams { start_dt, period, base_id, sub_id }
    }

    /// The query that a store takes for these criteria: the same criteria,
    /// one for one.
    pub fn to_query(&self) -> (query: Search)
        ensures
            query@ == self@,
    {
        Search::new(self.start_dt, self.period.clone(), self.base_id, self.sub_id)
    }
}

} // verus!

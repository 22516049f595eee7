//! Categories: the two-level classification of records.

use vstd::prelude::*;

verus! {

/// A base category as it is stored: a class of records of one book.
#[derive(Debug, PartialEq)]
pub struct BaseCategory {
    type_id: i16,
    book_id: i32,
    is_record: bool,
    is_income: bool,
    name: String,
    color: String,
}

/// Mathematical view of a base category, of the entity and of the request.
pub struct BaseCategoryView {
    pub type_id: i16,
    pub book_id: i32,
    pub is_record: bool,
    pub is_income: bool,
    pub name: Seq<char>,
    pub color: Seq<char>,
}

impl View for BaseCategory {
    type V = BaseCategoryView;

    closed spec fn view(&self) -> BaseCategoryView {
        BaseCategoryView {
            type_id: self.type_id,
            book_id: self.book_id,
            is_record: self.is_record,
            is_income: self.is_income,
            name: self.name@,
            color: self.color@,
        }
    }
}

impl BaseCategory {
    /// Puts the given fields together.
    pub fn new(
        type_id: i16,
        book_id: i32,
        is_record: bool,
        is_income: bool,
        name: String,
        color: String,
    ) -> (category: Self)
        ensures
            category@ == (BaseCategoryView {
                type_id,
                book_id,
                is_record,
                is_income,
                name: name@,
                color: color@,
            }),
    {
        BaseCategory { type_id, book_id, is_record, is_income, name, color }
    }

    /// The id of the kind.
    pub fn get_type_id(&self) -> (type_id: i16)
        ensures
            type_id == self@.type_id,
    {
        self.type_id
    }

    /// The id of the owning book.
    pub fn get_book_id(&self) -> (book_id: i32)
        ensures
            book_id == self@.book_id,
    {
        self.book_id
    }

    /// The flag that marks a class of records.
    pub fn get_is_record(&self) -> (is_record: bool)
        ensures
            is_record == self@.is_record,
    {
        self.is_record
    }

    /// The flag that marks income.
    pub fn get_is_income(&self) -> (is_income: bool)
        ensures
            is_income == self@.is_income,
    {
        self.is_income
    }

    /// The name.
    pub fn get_name(&self) -> (name: &String)
        ensures
            name@ == self@.name,
    {
        &self.name
    }

    /// The color.
    pub fn get_color(&self) -> (color: &String)
        ensures
            color@ == self@.color,
    {
        &self.color
    }
}

/// A sub category as it is stored: a refinement of one base category.
#[derive(Debug, PartialEq)]
pub struct SubCategory {
    base_id: i16,
    name: String,
}

/// Mathematical view of a sub category, of the entity and of the request.
pub struct SubCategoryView {
    pub base_id: i16,
    pub name: Seq<char>,
}

impl View for SubCategory {
    type V = SubCategoryView;

    closed spec fn view(&self) -> SubCategoryView {
        SubCategoryView { base_id: self.base_id, name: self.name@ }
    }
}

impl SubCategory {
    /// Puts the given fields together.
    pub fn new(base_id: i16, name: String) -> (category: Self)
        ensures
            category@ == (SubCategoryView { base_id, name: name@ }),
    {
        SubCategory { base_id, name }
    }

    /// The id of the base category.
    pub fn get_base_id(&self) -> (base_id: i16)
        ensures
            base_id == self@.base_id,
    {
        self.base_id
    }

    /// The name.
    pub fn get_name(&self) -> (name: &String)
        ensures
            name@ == self@.name,
    {
        &self.name
    }
}

/// A request to create a base category.
#[derive(Debug, PartialEq)]
pub struct NewBaseCategory {
    type_id: i16,
    book_id: i32,
    is_record: bool,
    is_income: bool,
    name: String,
    color: String,
}

impl View for NewBaseCategory {
    type V = BaseCategoryView;

    closed spec fn view(&self) -> BaseCategoryView {
        BaseCategoryView {
            type_id: self.type_id,
            book_id: self.book_id,
            is_record: self.is_record,
            is_income: self.is_income,
            name: self.name@,
            color: self.color@,
        }
    }
}

impl Clone for NewBaseCategory {
    fn clone(&self) -> (copy: Self)
        ensures
            copy == *self,
    {
        NewBaseCategory {
            type_id: self.type_id,
            book_id: self.book_id,
            is_record: self.is_record,
            is_income: self.is_income,
            name: self.name.clone(),
            color: self.color.clone(),
        }
    }
}

impl NewBaseCategory {
    /// Puts the given fields together.
    pub fn new(
        type_id: i16,
        book_id: i32,
        is_record: bool,
        is_income: bool,
        name: String,
        color: String,
    ) -> (request: Self)
        ensures
            request@ == (BaseCategoryView {
                type_id,
                book_id,
                is_record,
                is_income,
                name: name@,
                color: color@,
            }),
    {
        Self { type_id, book_id, is_record, is_income, name, color }
    }

    /// The entity that this request asks for: the same fields, one for one.
    pub fn to_entity(&self) -> (category: BaseCategory)
        ensures
            category@ == self@,
    {
        BaseCategory::new(
            self.type_id,
            self.book_id,
            self.is_record,
            self.is_income,
            self.name.clone(),
            self.color.clone(),
        )
    }
}

/// A request to create a sub category.
#[derive(Debug, PartialEq)]
pub struct NewSubCategory {
    base_id: i16,
    name: String,
}

impl View for NewSubCategory {
    type V = SubCategoryView;

    closed spec fn view(&self) -> SubCategoryView {
        SubCategoryView { base_id: self.base_id, name: self.name@ }
    }
}

impl Clone for NewSubCategory {
    fn clone(&self) -> (copy: Self)
        ensures
            copy == *self,
    {
        NewSubCategory { base_id: self.base_id, name: self.name.clone() }
    }
}

impl NewSubCategory {
    /// Puts the given fields together.
    pub fn new(base_id: i16, name: String) -> (request: Self)
        ensures
            request@ == (SubCategoryView { base_id, name: name@ }),
    {
        Self { base_id, name }
    }

    /// The entity that this request asks for: the same fields, one for one.
    pub fn to_entity(&self) -> (category: SubCategory)
        ensures
            category@ == self@,
    {
        SubCategory::new(self.base_id, self.name.clone())
    }
}

} // verus!

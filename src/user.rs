//! User records and the inputs that create and search them.
use vstd::prelude::*;
use crate::text::{has_substring, lower_of};

verus! {

/// A user record as the store holds it.
#[derive(Clone, Debug)]
pub struct User {
    pub id: i32,
    pub name: String,
    pub email: String,
    pub age: u8,
}

/// The mathematical value of a [`User`].
pub ghost struct UserModel {
    pub id: i32,
    pub name: Seq<char>,
    pub email: Seq<char>,
    pub age: u8,
}

impl View for User {
    type V = UserModel;

    open spec fn view(&self) -> UserModel {
        UserModel { id: self.id, name: self.name@, email: self.email@, age: self.age }
    }
}

impl User {
    /// A field-by-field copy.
    pub fn copy(&self) -> (r: User)
        ensures
            r@ == self@,
    {
        User { id: self.id, name: self.name.clone(), email: self.email.clone(), age: self.age }
    }
}

/// A user row as the relational table holds it.
#[derive(Clone, Debug)]
pub struct DBUser {
    pub id: i32,
    pub name: String,
    pub email: String,
    pub age: i32,
}

/// Search criteria; an absent criterion matches every record.
#[derive(Clone, Debug)]
pub struct UserSearchInput {
    pub name: Option<String>,
    pub email: Option<String>,
    pub age: Option<u8>,
}

/// The mathematical value of a [`UserSearchInput`].
pub ghost struct SearchModel {
    pub name: Option<Seq<char>>,
    pub email: Option<Seq<char>>,
    pub age: Option<u8>,
}

/// The value of an optional text.
pub open spec fn opt_view(s: Option<String>) -> Option<Seq<char>> {
    match s {
        Some(v) => Some(v@),
        None => None,
    }
}

impl View for UserSearchInput {
    type V = SearchModel;

    open spec fn view(&self) -> SearchModel {
        SearchModel { name: opt_view(self.name), email: opt_view(self.email), age: self.age }
    }
}

/// The fields of a record to be created.
#[derive(Clone, Debug)]
pub struct UserCreateInput {
    pub name: String,
    pub email: String,
    pub age: u8,
}

/// A text criterion holds when it is absent, or when its lowercased pattern
/// occurs in the lowercased field.
pub open spec fn text_matches(field: Seq<char>, pattern: Option<Seq<char>>) -> bool {
    match pattern {
        Some(p) => has_substring(lower_of(field), lower_of(p)),
        None => true,
    }
}

/// An age criterion is a minimum: the record's age must reach it.
pub open spec fn age_matches(age: u8, min_age: Option<u8>) -> bool {
    match min_age {
        Some(a) => age >= a,
        None => true,
    }
}

/// A record satisfies every criterion that the search supplies.
pub open spec fn matches_search(u: UserModel, f: SearchModel) -> bool {
    text_matches(u.name, f.name) && text_matches(u.email, f.email) && age_matches(u.age, f.age)
}

} // verus!

//! The error taxonomy and its translation into API-facing errors.
use async_graphql::ErrorExtensions;
use vstd::prelude::*;
use vstd::string::{StringExecFns, to_string_from_display_ensures};

verus! {

/// Declares the relational driver's error type so that it can be carried.
#[verifier::external_type_specification]
#[verifier::external_body]
pub struct ExSqlxError(sqlx::Error);

/// Declares the API layer's error type, the form in which errors leave the
/// library.
#[verifier::external_type_specification]
#[verifier::external_body]
pub struct ExGraphqlError(async_graphql::Error);

/// Whether a driver error is the one for a query that returned no row.
pub uninterp spec fn row_not_found_of(e: sqlx::Error) -> bool;

/// What `async_graphql::Error::new` gives for a message.
pub uninterp spec fn graphql_error_of(message: Seq<char>) -> async_graphql::Error;

/// What `extend_with` gives when it adds an `id` extension to an error.
pub uninterp spec fn graphql_with_id_of(err: async_graphql::Error, id: i32) -> async_graphql::Error;

/// `u` is the translation of the driver error `e`: `NotFound` exactly when the
/// driver found no row, and otherwise a `DatabaseError` with the driver's
/// display text.
pub open spec fn translates(e: sqlx::Error, u: UserError) -> bool {
    &&& (u is NotFound) == row_not_found_of(e)
    &&& u matches UserError::DatabaseError(m) ==> to_string_from_display_ensures::<sqlx::Error>(
        &e,
        m,
    )
}

/// Failures of a lookup by id against a storage layer.
#[derive(Clone, Debug, PartialEq, Eq)]
pub enum UserError {
    /// No record has the requested id.
    NotFound,
    /// Any other storage failure, with the driver's message.
    DatabaseError(String),
}

/// An error as the API hands it to the caller: a message and, where the
/// request named a record, that record's id as a structured attribute.
#[derive(Clone, Debug)]
pub struct ApiError {
    pub message: String,
    pub id: Option<i32>,
}

/// The fixed user-facing text of a failed lookup.
pub open spec fn not_found_text() -> Seq<char> {
    "User not found"@
}

/// The prefix that marks a storage failure.
pub open spec fn database_prefix() -> Seq<char> {
    "Database error: "@
}

impl UserError {
    /// The message that the API shows for this error.
    pub open spec fn message_of(self) -> Seq<char> {
        match self {
            UserError::NotFound => not_found_text(),
            UserError::DatabaseError(m) => database_prefix() + m@,
        }
    }

    /// The error for a driver failure, told apart by whether the driver found
    /// no row.
    pub fn from_parts(row_not_found: bool, text: String) -> (r: UserError)
        ensures
            row_not_found ==> r == UserError::NotFound,
            !row_not_found ==> r == UserError::DatabaseError(text),
    {
        if row_not_found {
            UserError::NotFound
        } else {
            UserError::DatabaseError(text)
        }
    }

    /// Translates a driver error: "no row" becomes `NotFound`, any other
    /// failure a `DatabaseError` with the driver's message.
    pub fn from(error: sqlx::Error) -> (r: UserError)
        ensures
            translates(error, r),
    {
        let not_found = is_row_not_found(&error);
        let text = error.to_string();
        UserError::from_parts(not_found, text)
    }

    /// The message that the API shows for this error.
    pub fn message(&self) -> (r: String)
        ensures
            r@ == self.message_of(),
    {
        match self {
            UserError::NotFound => String::from_str("User not found"),
            UserError::DatabaseError(m) => {
                let mut s = String::from_str("Database error: ");
                s.append(m.as_str());
                s
            },
        }
    }

    /// The API-facing form of this error, which names no record.
    pub fn to_api_error(&self) -> (r: ApiError)
        ensures
            r.message@ == self.message_of(),
            r.id is None,
    {
        ApiError { message: self.message(), id: None }
    }
}

impl ApiError {
    /// The error of a request for a record that does not exist, naming its id.
    pub fn not_found(id: i32) -> (r: ApiError)
        ensures
            r.message@ == not_found_text(),
            r.id == Some(id),
    {
        ApiError { message: String::from_str("User not found"), id: Some(id) }
    }

    /// The API layer's error: this message, and an `id` extension when the
    /// error names a record.
    pub fn into_graphql(self) -> (r: async_graphql::Error)
        ensures
            r == match self.id {
                Some(id) => graphql_with_id_of(graphql_error_of(self.message@), id),
                None => graphql_error_of(self.message@),
            },
    {
        let err = graphql_error(self.message);
        match self.id {
            Some(id) => graphql_error_with_id(err, id),
            None => err,
        }
    }
}

/// Relies on `async_graphql::Error::new`: an error carrying `message`.
#[verifier::external_body]
fn graphql_error(message: String) -> (r: async_graphql::Error)
    ensures
        r == graphql_error_of(message@),
{
    async_graphql::Error::new(message)
}

/// Relies on `ErrorExtensions::extend_with` for `async_graphql::Error`: the
/// same error with an `id` extension added.
#[verifier::external_body]
fn graphql_error_with_id(err: async_graphql::Error, id: i32) -> (r: async_graphql::Error)
    ensures
        r == graphql_with_id_of(err, id),
{
    err.extend_with(|_, ext| ext.set("id", id))
}

/// Relies on the `sqlx::Error::RowNotFound` variant to tell a query that
/// returned no row from every other driver failure.
#[verifier::external_body]
fn is_row_not_found(error: &sqlx::Error) -> (r: bool)
    ensures
        r == row_not_found_of(*error),
{
    matches!(error, sqlx::Error::RowNotFound)
}

} // verus!

//! User records behind a small query/mutation façade: an in-memory store with
//! create, read, update, delete and filtered search, plus the translation of
//! storage failures into API-facing errors.
pub mod errors;
pub mod text;
pub mod user;
pub mod store;
pub mod laws;

//! A verified model of a minimal notes service: a single "notes" resource
//! with create, list, get, partial update and delete operations, plus the
//! input normalisation and error mapping that the HTTP layer relies on.

pub mod error;
pub mod notes;
pub mod store;
pub mod laws;

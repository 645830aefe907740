//! Lookup of one book record in a key-value store: the codec between the
//! store's attributes and the record, the choice of store endpoint, and the
//! responses a lookup is answered with.
pub mod attributes;
pub mod book;
pub mod client;
pub mod handler;
pub mod json;
pub mod response;
pub mod uuid_text;

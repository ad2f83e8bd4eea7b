//! Decoding, validation and assembly of listing documents served by a
//! kind-tagged JSON content API, with the request-target construction that
//! produces them.

pub mod accessors;
pub mod assemble;
pub mod decode;
pub mod entities;
pub mod fetch;
pub mod fields;
pub mod json;
pub mod pages;
pub mod query;
pub mod schema;
pub mod sorting;
pub mod targets;
pub mod timestamp;

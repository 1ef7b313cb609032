//! A small modal key/value editor core: a state machine over two text
//! buffers and a committed string-to-string mapping, together with the
//! JSON encoding used to persist and export the mapping.

pub mod app;
pub mod chars;
pub mod json;
pub mod laws;
pub mod store;

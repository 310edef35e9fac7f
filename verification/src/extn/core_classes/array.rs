//! Storage for `Array`.

pub mod inline_buffer;
pub mod inline_storage;
pub mod laws;

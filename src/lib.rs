//! Persistence of a small task list: the records, their encoding as a JSON
//! tree, and the decisions taken when the list is loaded and saved.

pub mod todo;
pub mod json;
pub mod error;
pub mod codec;
pub mod store;

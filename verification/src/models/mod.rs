//! The data model.

pub mod todo;

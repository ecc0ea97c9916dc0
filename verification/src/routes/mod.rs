//! The operations of the service, one module for each resource.

pub mod audio;
pub mod todos;

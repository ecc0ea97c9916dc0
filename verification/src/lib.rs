//! A task-tracking backend: request validation, the store of todo records
//! and the rules that create, change and remove them.
//!
//! - [`validator`] turns the bytes of a request into a checked command or
//!   into the violations found, with [`json`] and [`decode`] below it.
//! - [`state`] is the store, [`routes`] the operations on it.
//! - [`error`] is what can go wrong and what the boundary shows of it.
//! - [`services`] holds what is asked of the extraction service.
//! - [`clock`] and [`ids`] give the time and fresh identifiers.

pub mod clock;
pub mod decode;
pub mod error;
pub mod ids;
pub mod json;
pub mod models;
pub mod routes;
pub mod services;
pub mod state;
pub mod text;
pub mod validator;

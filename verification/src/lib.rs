//! The request/response rules of a small todo service: the todo record, the
//! uniform error payload, the outcome of each operation given what the store
//! replied, and a reference table that states what the store owes.

pub mod error;
pub mod handlers;
pub mod laws;
pub mod service;
pub mod table;
pub mod text;
pub mod todo;

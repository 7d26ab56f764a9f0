//! A todo and label repository: in-memory stores with proved contracts, the
//! decision logic of the database-backed stores as state machines, request
//! validation and the response decisions of the HTTP handlers.
pub mod error;
pub mod validation;
pub mod ids;
pub mod label;
pub mod todo;
pub mod label_db;
pub mod todo_db;
pub mod laws;
pub mod handlers;

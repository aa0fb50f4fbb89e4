//! A small task service: the data model, the SQL statements it issues, the
//! JSON responses it answers with, and an in-memory table with the same
//! meaning as the SQL one.
pub mod task;
pub mod json;
pub mod statement;
pub mod table;
pub mod handlers;
pub mod laws;

//! A movie catalogue store: the entity model, an in-memory backend guarded by a
//! reader/writer lock, the row logic of a relational backend, and the choice
//! between the two.

pub mod app_error;
mod clock;
pub mod configuration;
pub mod laws;
pub mod memory_store;
pub mod movie;
pub mod sql_store;
pub mod table;

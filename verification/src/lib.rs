//! A bridge between a host application and one embedded SQLite database.
//!
//! The host hands over statements as text, with parameters bound by position,
//! and gets back values of a small closed set of kinds. One connection is
//! shared by all callers behind a lock ([`guard`]); five operations run one
//! statement each ([`bridge`]); the cells of a result are converted one by one
//! ([`value`]) and gathered into records ([`record`]). What the engine itself
//! does is taken on trust and kept apart in [`engine`]; everything around it
//! is proved. One thing is left to the host: the names of a statement's
//! columns, which the binding cannot read without risk
//! ([`bridge::ColumnNames`]).

pub mod bridge;
pub mod engine;
pub mod error;
pub mod guard;
pub mod identifier;
pub mod record;
pub mod schema;
pub mod value;

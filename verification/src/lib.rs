//! A bridge from one broker topic to a local append-only table: each payload
//! received is checked as structured data and, where it passes, recorded with
//! the time of its acceptance.

pub mod config;
pub mod failure;
pub mod ingest;
pub mod record;
pub mod session;
pub mod store;
pub mod validator;

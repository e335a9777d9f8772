//! The persistent store as the library knows it: one table, the statement
//! that makes it and the statement that appends to it. The statements are
//! run by the caller, who holds the connection.

use vstd::prelude::*;

verus! {

/// The file that holds the store.
pub const DATABASE_PATH: &'static str = "mqtt_logs.db";

/// Makes the table where there is none yet, and leaves one that exists as
/// it is. The store gives each row its identifier.
pub const SCHEMA_STATEMENT: &'static str =
    "CREATE TABLE IF NOT EXISTS messages (\
        id INTEGER PRIMARY KEY AUTOINCREMENT, \
        topic TEXT NOT NULL, \
        message TEXT NOT NULL, \
        timestamp INTEGER NOT NULL\
    )";

/// Appends one row. Its parameters are, first to third, a record's topic,
/// its message and its timestamp.
pub const INSERT_STATEMENT: &'static str =
    "INSERT INTO messages (topic, message, timestamp) VALUES (?1, ?2, ?3)";

} // verus!

use mqtt_logger::ingest::{step, Action, LoopState};
use mqtt_logger::record::InboundMessage;
use mqtt_logger::session::SessionEvent;
use mqtt_logger::store::{DATABASE_PATH, INSERT_STATEMENT, SCHEMA_STATEMENT};
use rusqlite::Connection;
use std::time::{SystemTime, UNIX_EPOCH};

struct Row {
    id: i64,
    topic: String,
    message: String,
    timestamp: i64,
}

fn open() -> Connection {
    let connection = Connection::open_in_memory().unwrap();
    connection.execute(SCHEMA_STATEMENT, ()).unwrap();
    connection
}

fn now() -> u64 {
    SystemTime::now().duration_since(UNIX_EPOCH).unwrap().as_secs()
}

fn message(topic: &str, payload: &[u8]) -> SessionEvent {
    SessionEvent::MessageReceived(InboundMessage {
        topic: String::from(topic),
        payload: payload.to_vec(),
    })
}

/// Takes one event as the loop's caller does: performs what `step` asks.
fn take(connection: &Connection, state: LoopState, event: SessionEvent, clock: u64) -> LoopState {
    let (next, action) = step(state, event, clock);
    if let Action::Persist(record) = action {
        let changed = connection
            .execute(INSERT_STATEMENT, (&record.topic, &record.message, record.timestamp))
            .unwrap();
        assert_eq!(changed, 1);
    }
    next
}

fn rows(connection: &Connection) -> Vec<Row> {
    let mut statement = connection
        .prepare("SELECT id, topic, message, timestamp FROM messages ORDER BY id")
        .unwrap();
    let found = statement
        .query_map((), |row| {
            Ok(Row {
                id: row.get(0)?,
                topic: row.get(1)?,
                message: row.get(2)?,
                timestamp: row.get(3)?,
            })
        })
        .unwrap();
    found.map(|row| row.unwrap()).collect()
}

fn tables(connection: &Connection) -> i64 {
    connection
        .query_row(
            "SELECT COUNT(*) FROM sqlite_master WHERE type = 'table' AND name = 'messages'",
            (),
            |row| row.get(0),
        )
        .unwrap()
}

#[test]
fn the_store_is_the_documented_file() {
    assert_eq!(DATABASE_PATH, "mqtt_logs.db");
}

#[test]
fn the_schema_statement_makes_the_documented_table() {
    let connection = open();
    let sql: String = connection
        .query_row("SELECT sql FROM sqlite_master WHERE name = 'messages'", (), |row| row.get(0))
        .unwrap();
    assert_eq!(
        sql,
        "CREATE TABLE messages (id INTEGER PRIMARY KEY AUTOINCREMENT, topic TEXT NOT NULL, \
         message TEXT NOT NULL, timestamp INTEGER NOT NULL)"
    );
}

#[test]
fn making_the_schema_twice_keeps_one_table_and_its_rows() {
    let connection = open();
    take(&connection, LoopState::Running, message("/broker_alive", b"{\"n\": 1}"), 5);
    connection.execute(SCHEMA_STATEMENT, ()).unwrap();
    connection.execute(SCHEMA_STATEMENT, ()).unwrap();
    assert_eq!(tables(&connection), 1);
    let found = rows(&connection);
    assert_eq!(found.len(), 1);
    assert_eq!(found[0].message, "{\"n\":1}");
}

#[test]
fn one_valid_message_makes_one_row() {
    let connection = open();
    let before = now();
    take(&connection, LoopState::Running, message("/broker_alive", b"{\"temp\": 21.5}"), now());
    let after = now();
    let found = rows(&connection);
    assert_eq!(found.len(), 1);
    assert_eq!(found[0].topic, "/broker_alive");
    assert_eq!(found[0].message, "{\"temp\":21.5}");
    assert!(before as i64 - 1 <= found[0].timestamp && found[0].timestamp <= after as i64 + 1);
}

#[test]
fn a_malformed_message_makes_no_row() {
    let connection = open();
    let state = take(&connection, LoopState::Running, message("/broker_alive", b"not-json"), 5);
    assert_eq!(state, LoopState::Running);
    assert_eq!(rows(&connection).len(), 0);
    let state = take(&connection, state, message("/broker_alive", b"true"), 6);
    assert_eq!(state, LoopState::Running);
    assert_eq!(rows(&connection).len(), 1);
}

#[test]
fn valid_messages_make_as_many_rows_with_growing_identifiers() {
    let connection = open();
    let mut state = LoopState::initial();
    for n in 0..40u64 {
        let payload = format!("{{\"n\": {}}}", n);
        state = take(&connection, state, message("/broker_alive", payload.as_bytes()), 100 + n);
    }
    let found = rows(&connection);
    assert_eq!(found.len(), 40);
    for (n, row) in found.iter().enumerate() {
        assert_eq!(row.topic, "/broker_alive");
        assert_eq!(row.message, format!("{{\"n\":{}}}", n));
        assert_eq!(row.timestamp, 100 + n as i64);
        if n > 0 {
            assert!(found[n - 1].id < row.id);
        }
    }
}

#[test]
fn equal_messages_make_two_rows_with_two_identifiers() {
    let connection = open();
    let state = take(&connection, LoopState::Running, message("/broker_alive", b"{\"n\":1}"), 9);
    take(&connection, state, message("/broker_alive", b"{\"n\":1}"), 9);
    let found = rows(&connection);
    assert_eq!(found.len(), 2);
    assert_ne!(found[0].id, found[1].id);
    assert_eq!(found[0].topic, found[1].topic);
    assert_eq!(found[0].message, found[1].message);
    assert_eq!(found[0].timestamp, found[1].timestamp);
}

#[test]
fn nothing_is_stored_after_a_session_error() {
    let connection = open();
    let state = take(&connection, LoopState::Running, message("/broker_alive", b"1"), 1);
    let state = take(
        &connection,
        state,
        SessionEvent::SessionError { detail: String::from("lost") },
        2,
    );
    assert_eq!(state, LoopState::Stopped);
    let state = take(&connection, state, message("/broker_alive", b"2"), 3);
    assert_eq!(state, LoopState::Stopped);
    assert_eq!(rows(&connection).len(), 1);
}

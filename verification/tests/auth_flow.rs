use classmate::auth::{decide_login, login, register};
use classmate::errors::AuthError;

fn fresh_db() -> rusqlite::Connection {
    let conn = rusqlite::Connection::open_in_memory().unwrap();
    conn.execute(
        "CREATE TABLE IF NOT EXISTS users (
             id INTEGER PRIMARY KEY,
             username TEXT NOT NULL UNIQUE,
             password_hash TEXT NOT NULL
         )",
        (),
    )
    .unwrap();
    conn
}

#[test]
fn register_then_login_succeeds() {
    let mut conn = fresh_db();
    assert_eq!(register(&mut conn, "alice", "correct horse"), Ok(()));
    assert_eq!(login(&conn, "alice", "correct horse"), Ok(()));
}

#[test]
fn wrong_password_and_unknown_user_same_outcome() {
    let mut conn = fresh_db();
    register(&mut conn, "alice", "correct horse").unwrap();
    let wrong_password = login(&conn, "alice", "wrong horse");
    let unknown_user = login(&conn, "bob", "correct horse");
    assert_eq!(wrong_password, Err(AuthError::InvalidCredentials));
    assert_eq!(unknown_user, Err(AuthError::InvalidCredentials));
    assert_eq!(wrong_password, unknown_user);
}

#[test]
fn duplicate_register_conflicts_and_keeps_one_row() {
    let mut conn = fresh_db();
    assert_eq!(register(&mut conn, "alice", "first secret"), Ok(()));
    assert_eq!(
        register(&mut conn, "alice", "second secret"),
        Err(AuthError::StorageConflict)
    );
    let row_count: i64 = conn
        .query_row("SELECT COUNT(*) FROM users WHERE username = 'alice'", (), |row| row.get(0))
        .unwrap();
    assert_eq!(row_count, 1);
    // The first registration's credentials still stand.
    assert_eq!(login(&conn, "alice", "first secret"), Ok(()));
    assert_eq!(login(&conn, "alice", "second secret"), Err(AuthError::InvalidCredentials));
}

#[test]
fn stored_hash_is_not_the_password() {
    let mut conn = fresh_db();
    register(&mut conn, "alice", "plain secret").unwrap();
    let stored: String = conn
        .query_row("SELECT password_hash FROM users WHERE username = 'alice'", (), |row| {
            row.get(0)
        })
        .unwrap();
    assert_ne!(stored, "plain secret");
    // Presenting the stored hash as the password does not log in either.
    assert_eq!(
        login(&conn, "alice", stored.as_str()),
        Err(AuthError::InvalidCredentials)
    );
}

#[test]
fn login_lookup_failure_collapses_to_invalid_credentials() {
    // No users table at all: the lookup fails, and the caller sees exactly
    // the outcome an unknown user would see.
    let conn = rusqlite::Connection::open_in_memory().unwrap();
    assert_eq!(login(&conn, "alice", "pw"), Err(AuthError::InvalidCredentials));
}

#[test]
fn empty_password_round_trips() {
    let mut conn = fresh_db();
    assert_eq!(register(&mut conn, "eve", ""), Ok(()));
    assert_eq!(login(&conn, "eve", ""), Ok(()));
    assert_eq!(login(&conn, "eve", "x"), Err(AuthError::InvalidCredentials));
}

#[test]
fn login_decision_is_pinned_per_lookup_value() {
    let mut conn = fresh_db();
    register(&mut conn, "dana", "open sesame").unwrap();
    let stored: String = conn
        .query_row("SELECT password_hash FROM users WHERE username = 'dana'", (), |row| {
            row.get(0)
        })
        .unwrap();
    assert_eq!(decide_login(Ok(Some(stored.clone())), "open sesame"), Ok(()));
    assert_eq!(
        decide_login(Ok(Some(stored)), "shut sesame"),
        Err(AuthError::InvalidCredentials)
    );
    assert_eq!(decide_login(Ok(None), "open sesame"), Err(AuthError::InvalidCredentials));
    assert_eq!(decide_login(Err(()), "open sesame"), Err(AuthError::InvalidCredentials));
}

#[test]
fn register_storage_failure_reports_storage() {
    let mut conn = rusqlite::Connection::open_in_memory().unwrap();
    assert_eq!(register(&mut conn, "alice", "pw"), Err(AuthError::Storage));
}

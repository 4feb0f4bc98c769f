use mirnet_server::store::{RegisterOutcome, StoreError, UserDb};

fn fresh_db() -> UserDb {
    let conn = rusqlite::Connection::open_in_memory().unwrap();
    let mut db = UserDb::new(conn);
    db.initialize().unwrap();
    db
}

#[test]
fn register_twice_creates_once() {
    let mut db = fresh_db();
    assert_eq!(
        db.register("alice", "hash-a").unwrap(),
        RegisterOutcome::Created
    );
    assert_eq!(
        db.register("alice", "hash-b").unwrap(),
        RegisterOutcome::AlreadyExists
    );
    // the second attempt created no new row and changed nothing: the stored
    // hash is still the first one
    let user = db.get_user_by_login("alice").unwrap();
    assert_eq!(user.login, "alice");
    assert_eq!(user.password_hash, "hash-a");
}

#[test]
fn distinct_logins_all_register() {
    let mut db = fresh_db();
    assert_eq!(db.register("alice", "h1").unwrap(), RegisterOutcome::Created);
    assert_eq!(db.register("bob", "h2").unwrap(), RegisterOutcome::Created);
    assert_eq!(db.register("carol", "h3").unwrap(), RegisterOutcome::Created);
    assert_eq!(db.get_user_by_login("bob").unwrap().password_hash, "h2");
}

#[test]
fn missing_login_is_not_found() {
    let db = fresh_db();
    assert!(matches!(
        db.get_user_by_login("nobody"),
        Err(StoreError::NotFound)
    ));
}

#[test]
fn session_roundtrip() {
    let mut db = fresh_db();
    db.create_session("token-1", 7, 1_000_000).unwrap();
    let s = db.get_session_by_id("token-1").unwrap();
    assert_eq!(s.id, "token-1");
    assert_eq!(s.user_id, 7);
    assert_eq!(s.valid_until, 1_000_000);
}

#[test]
fn removed_session_is_not_found() {
    let mut db = fresh_db();
    db.create_session("token-2", 1, 500).unwrap();
    db.remove_session("token-2").unwrap();
    assert!(matches!(
        db.get_session_by_id("token-2"),
        Err(StoreError::NotFound)
    ));
}

#[test]
fn removing_absent_session_succeeds() {
    let mut db = fresh_db();
    assert!(db.remove_session("never-issued").is_ok());
}

#[test]
fn colliding_session_token_fails_without_overwriting() {
    let mut db = fresh_db();
    db.create_session("token-3", 1, 100).unwrap();
    assert!(matches!(
        db.create_session("token-3", 2, 200),
        Err(StoreError::Fault(_))
    ));
    let s = db.get_session_by_id("token-3").unwrap();
    assert_eq!(s.user_id, 1);
    assert_eq!(s.valid_until, 100);
}

#[test]
fn initialize_is_idempotent() {
    let mut db = fresh_db();
    db.register("alice", "h").unwrap();
    db.initialize().unwrap();
    assert_eq!(db.get_user_by_login("alice").unwrap().password_hash, "h");
}

#[test]
fn uninitialized_store_reports_fault() {
    let conn = rusqlite::Connection::open_in_memory().unwrap();
    let mut db = UserDb::new(conn);
    assert!(matches!(
        db.register("alice", "h"),
        Err(StoreError::Fault(_))
    ));
}

#[test]
fn store_error_messages() {
    assert_eq!(StoreError::NotFound.message(), "no such record");
    assert_eq!(
        StoreError::Fault(String::from("disk on fire")).message(),
        "disk on fire"
    );
}

#[test]
fn tokens_are_compared_as_exact_text() {
    let mut db = fresh_db();
    // numeric-looking tokens must not alias: '01' and '1' are distinct tokens
    db.create_session("01", 7, 100).unwrap();
    assert!(matches!(
        db.get_session_by_id("1"),
        Err(StoreError::NotFound)
    ));
    assert_eq!(db.get_session_by_id("01").unwrap().user_id, 7);

    // deleting '1' must not touch the row stored under '01'
    db.remove_session("1").unwrap();
    assert_eq!(db.get_session_by_id("01").unwrap().user_id, 7);

    db.remove_session("01").unwrap();
    assert!(matches!(
        db.get_session_by_id("01"),
        Err(StoreError::NotFound)
    ));
}

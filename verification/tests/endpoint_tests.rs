use mirnet_server::auth::authenticate_at;
use mirnet_server::endpoints::{
    login_core, login_reply, logout_core, register_account_core, register_reply, LoginOutcome,
    LoginResponse, SESSION_TTL_SECONDS,
};
use mirnet_server::pipeline::{
    decode_input, encode_output, process_response, ProcessOutcome, ReplyBody,
};
use mirnet_server::store::{RegisterOutcome, StoreError, UserDb};

fn fresh_db() -> UserDb {
    let conn = rusqlite::Connection::open_in_memory().unwrap();
    let mut db = UserDb::new(conn);
    db.initialize().unwrap();
    db
}

#[test]
fn login_response_constructors() {
    let r = LoginResponse::ok();
    assert!(r.success);
    assert!(r.error.is_none());

    let r = LoginResponse::error("boom");
    assert!(!r.success);
    assert_eq!(r.error.as_deref(), Some("boom"));

    let r = LoginResponse::error_display("Account already exists");
    assert!(!r.success);
    assert_eq!(r.error.as_deref(), Some("Account already exists"));
}

#[test]
fn register_replies() {
    let (status, body) = register_reply(&Ok(RegisterOutcome::Created));
    assert_eq!(status, 200);
    assert!(body.success);
    assert!(body.error.is_none());

    let (status, body) = register_reply(&Ok(RegisterOutcome::AlreadyExists));
    assert_eq!(status, 400);
    assert!(!body.success);
    assert_eq!(body.error.as_deref(), Some("Account already exists"));

    let (status, body) = register_reply(&Err(StoreError::Fault(String::from("disk on fire"))));
    assert_eq!(status, 500);
    assert!(!body.success);
    assert_eq!(body.error.as_deref(), Some("disk on fire"));
}

#[test]
fn login_replies() {
    let (status, body) = login_reply(&Ok(LoginOutcome::Accepted(String::from("tok"))));
    assert_eq!(status, 200);
    assert!(body.success);

    let (status, body) = login_reply(&Ok(LoginOutcome::WrongPassword));
    assert_eq!(status, 200);
    assert!(!body.success);
    assert_eq!(body.error.as_deref(), Some("Invalid password"));

    let (status, body) = login_reply(&Err(StoreError::NotFound));
    assert_eq!(status, 500);
    assert!(!body.success);
    assert_eq!(body.error.as_deref(), Some("no such record"));
}

#[test]
fn registering_a_taken_login_answers_already_exists() {
    let mut db = fresh_db();
    let first = register_account_core(&mut db, "alice", "pw1");
    let (status, body) = register_reply(&first);
    assert_eq!(status, 200);
    assert!(body.success);

    let second = register_account_core(&mut db, "alice", "pw2");
    let (status, body) = register_reply(&second);
    assert_eq!(status, 400);
    assert_eq!(body.error.as_deref(), Some("Account already exists"));
}

#[test]
fn registered_password_is_stored_hashed_and_verifies() {
    let mut db = fresh_db();
    register_account_core(&mut db, "alice", "pw1").unwrap();
    let user = db.get_user_by_login("alice").unwrap();
    // never stored in plaintext
    assert_ne!(user.password_hash, "pw1");
    assert!(mirnet_server::hashing::verify_password(
        "pw1",
        &user.password_hash
    ));
}

#[test]
fn end_to_end_scenario() {
    let mut db = fresh_db();
    let now: i64 = 1_700_000_000;

    // register("alice", "pw1") succeeds
    let r = register_account_core(&mut db, "alice", "pw1");
    assert!(matches!(r, Ok(RegisterOutcome::Created)));

    // login("alice", "pw1") succeeds and yields a token
    let token = match login_core(&mut db, "alice", "pw1", now) {
        Ok(LoginOutcome::Accepted(token)) => token,
        _ => panic!("login with the correct password must be accepted"),
    };

    // process(token, valid PNG bytes) is authenticated and answers 200 with PNG
    let session = authenticate_at(&db, Some(&token), now);
    assert!(session.is_some());
    let pixels = vec![10u8, 20, 30, 40, 50, 60];
    let upload = encode_output(&pixels, 2, 1).unwrap();
    let decoded = decode_input(&upload).unwrap();
    // stand-in for the transformation engine: identity on the decoded pixels
    let transformed = decoded.to_rgb8().into_raw();
    let result = encode_output(&transformed, 2, 1).unwrap();
    let reply = process_response(ProcessOutcome::Completed(result));
    assert_eq!(reply.status, 200);
    match reply.body {
        ReplyBody::Png(b) => assert_eq!(&b[..8], &[137u8, 80, 78, 71, 13, 10, 26, 10]),
        _ => panic!("success answers with PNG bytes"),
    }

    // logout(token) succeeds
    assert!(logout_core(&mut db, Some(&token)));

    // process(token, ...) is now forbidden before any work happens
    assert!(authenticate_at(&db, Some(&token), now).is_none());
    let reply = process_response(ProcessOutcome::Forbidden);
    assert_eq!(reply.status, 403);
    assert!(matches!(reply.body, ReplyBody::Empty));
}

#[test]
fn session_ttl_is_two_days() {
    assert_eq!(SESSION_TTL_SECONDS, 172_800);
}

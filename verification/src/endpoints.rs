//! Registration, login and logout.
//!
//! These are the write paths through the credential and session store: they
//! hash and check passwords, issue and delete sessions, and map every outcome
//! to a wire-level status and body.  The HTTP layer around them only moves
//! bytes; every decision is made here.

use crate::hashing::{hash_password, password_verifies, verify_password};
use crate::store::{RegisterOutcome, StoreError, UserDb, UserInfo};
use vstd::prelude::*;

verus! {

/// How long a session stays valid after login: two days, in seconds.
pub const SESSION_TTL_SECONDS: i64 = 2 * 24 * 60 * 60;

/// The credentials a caller submits to register or log in.
pub struct LoginArgs {
    pub login: String,
    pub password: String,
}

/// The body of a registration or login response.
pub struct LoginResponse {
    pub success: bool,
    pub error: Option<String>,
}

impl LoginResponse {
    pub fn ok() -> (r: LoginResponse)
        ensures
            r.success,
            r.error is None,
    {
        LoginResponse { success: true, error: None }
    }

    /// A failure response carrying a diagnostic rendering of an error value.
    pub fn error(error: &str) -> (r: LoginResponse)
        ensures
            !r.success,
            r.error matches Some(m) && m@ == error@,
    {
        LoginResponse { success: false, error: Some(String::from_str(error)) }
    }

    /// A failure response carrying a plain message meant for the caller.
    pub fn error_display(error: &str) -> (r: LoginResponse)
        ensures
            !r.success,
            r.error matches Some(m) && m@ == error@,
    {
        LoginResponse { success: false, error: Some(String::from_str(error)) }
    }
}

/// Outcome of a login attempt that reached a decision: a session was issued
/// under the carried token, or the password did not match.
pub enum LoginOutcome {
    Accepted(String),
    WrongPassword,
}

/// Relies on uuid's `Uuid::new_v4` and its `Display` form: a fresh random
/// version-4 UUID rendered as the 36-character hyphenated string.  Nothing is
/// promised about which token comes out; uniqueness rests on its entropy and
/// is re-checked by the session table's primary key.
#[verifier::external_body]
fn fresh_session_token() -> (r: String)
    ensures
        r@.len() == 36,
{
    uuid::Uuid::new_v4().to_string()
}

/// Registers a new account: hashes the password off the caller's plaintext and
/// inserts the account row.
///
/// `Created` means the login was free and now maps to a hash that verifies
/// against the submitted password; `AlreadyExists` means the login was taken
/// and nothing changed; any fault leaves the store unchanged.  Sessions are
/// never touched.
pub fn register_account_core(db: &mut UserDb, login: &str, password: &str) -> (r: Result<
    RegisterOutcome,
    StoreError,
>)
    ensures
        final(db).sessions() == old(db).sessions(),
        r matches Ok(o) && o is Created ==> {
            &&& !old(db).users().contains_key(login@)
            &&& final(db).users() == old(db).users().insert(login@, final(db).users()[login@])
            &&& password_verifies(password@, final(db).users()[login@].1)
        },
        r matches Ok(o) && o is AlreadyExists ==> {
            &&& old(db).users().contains_key(login@)
            &&& final(db).users() == old(db).users()
        },
        r is Err ==> final(db).users() == old(db).users(),
{
    match hash_password(password) {
        Ok(password_hash) => db.register(login, password_hash.as_str()),
        Err(m) => Err(StoreError::Fault(m)),
    }
}

/// Checks the password and, if it matches, issues a fresh session expiring
/// exactly `SESSION_TTL_SECONDS` after `now`.
///
/// `Accepted(token)` means the stored hash verified and the session table
/// gained exactly one row: the fresh token, bound to the account and to the
/// expiry `now + SESSION_TTL_SECONDS`.  `WrongPassword` means the stored hash
/// did not verify and no session was created.  An unknown login surfaces as
/// `NotFound`; no failure creates a session.  Accounts are never touched.
pub fn login_core(db: &mut UserDb, login: &str, password: &str, now: i64) -> (r: Result<
    LoginOutcome,
    StoreError,
>)
    requires
        now + SESSION_TTL_SECONDS <= i64::MAX,
    ensures
        final(db).users() == old(db).users(),
        r matches Ok(LoginOutcome::Accepted(token)) ==> {
            &&& old(db).users().contains_key(login@)
            &&& password_verifies(password@, old(db).users()[login@].1)
            &&& !old(db).sessions().contains_key(token@)
            &&& final(db).sessions() == old(db).sessions().insert(
                token@,
                (old(db).users()[login@].0, now + SESSION_TTL_SECONDS),
            )
        },
        r matches Ok(o) && o is WrongPassword ==> {
            &&& old(db).users().contains_key(login@)
            &&& !password_verifies(password@, old(db).users()[login@].1)
            &&& final(db).sessions() == old(db).sessions()
        },
        old(db).users().contains_key(login@) && !password_verifies(
            password@,
            old(db).users()[login@].1,
        ) ==> ((r matches Ok(o) && o is WrongPassword) || (r matches Err(e) && e is Fault)),
        r is Err ==> final(db).sessions() == old(db).sessions(),
        r matches Err(e) && e is NotFound ==> !old(db).users().contains_key(login@),
{
    let user = match db.get_user_by_login(login) {
        Ok(u) => u,
        Err(e) => {
            return Err(e);
        },
    };
    finish_login(db, user, password, now)
}

/// Decides a login for an account the store has already looked up: a password
/// that does not verify against the stored hash is always answered
/// `WrongPassword` — it never faults and never creates a session — and a
/// password that verifies issues the fresh session, unless the insert faults.
pub fn finish_login(db: &mut UserDb, user: UserInfo, password: &str, now: i64) -> (r: Result<
    LoginOutcome,
    StoreError,
>)
    requires
        now + SESSION_TTL_SECONDS <= i64::MAX,
    ensures
        final(db).users() == old(db).users(),
        !password_verifies(password@, user.password_hash@) ==> (r matches Ok(o)
            && o is WrongPassword),
        r matches Ok(o) && o is WrongPassword ==> {
            &&& !password_verifies(password@, user.password_hash@)
            &&& final(db).sessions() == old(db).sessions()
        },
        r matches Ok(LoginOutcome::Accepted(token)) ==> {
            &&& password_verifies(password@, user.password_hash@)
            &&& !old(db).sessions().contains_key(token@)
            &&& final(db).sessions() == old(db).sessions().insert(
                token@,
                (user.id as int, now + SESSION_TTL_SECONDS),
            )
        },
        r is Err ==> final(db).sessions() == old(db).sessions(),
        r matches Err(e) ==> e is Fault,
{
    if !verify_password(password, user.password_hash.as_str()) {
        return Ok(LoginOutcome::WrongPassword);
    }
    let token = fresh_session_token();
    let valid_until = now + SESSION_TTL_SECONDS;
    match db.create_session(token.as_str(), user.id, valid_until) {
        Ok(()) => Ok(LoginOutcome::Accepted(token)),
        Err(e) => Err(e),
    }
}

/// Deletes the caller's session, if a token was presented and the deletion
/// went through; the caller-side token is cleared by the HTTP layer either
/// way, and a deletion fault is logged, never surfaced.
pub fn logout_core(db: &mut UserDb, token: Option<&String>) -> (removed: bool)
    ensures
        final(db).users() == old(db).users(),
        removed ==> (token matches Some(t) && final(db).sessions() == old(db).sessions().remove(
            t@,
        )),
        !removed ==> final(db).sessions() == old(db).sessions(),
{
    match token {
        None => false,
        Some(t) => {
            match db.remove_session(t.as_str()) {
                Ok(()) => true,
                Err(_) => false,
            }
        },
    }
}

/// Maps a registration outcome to a wire-level status and body: created is
/// plain success; a taken login is a client error with an explanatory message;
/// a fault is a server error.
pub fn register_reply(r: &Result<RegisterOutcome, StoreError>) -> (reply: (u16, LoginResponse))
    ensures
        r matches Ok(o) && o is Created ==> {
            &&& reply.0 == 200
            &&& reply.1.success
            &&& reply.1.error is None
        },
        r matches Ok(o) && o is AlreadyExists ==> {
            &&& reply.0 == 400
            &&& !reply.1.success
            &&& reply.1.error matches Some(m) && m@ == "Account already exists"@
        },
        r matches Err(e) ==> {
            &&& reply.0 == 500
            &&& !reply.1.success
            &&& reply.1.error matches Some(m) && m@ == crate::store::spec_message(*e)
        },
{
    match r {
        Ok(RegisterOutcome::Created) => (200, LoginResponse::ok()),
        Ok(RegisterOutcome::AlreadyExists) => (
            400,
            LoginResponse::error_display("Account already exists"),
        ),
        Err(e) => (500, LoginResponse::error(e.message().as_str())),
    }
}

/// Maps a login outcome to a wire-level status and body: both an issued
/// session and a wrong password answer with status 200 (the body says which);
/// a fault is a server error.
pub fn login_reply(r: &Result<LoginOutcome, StoreError>) -> (reply: (u16, LoginResponse))
    ensures
        r matches Ok(o) && o is Accepted ==> {
            &&& reply.0 == 200
            &&& reply.1.success
            &&& reply.1.error is None
        },
        r matches Ok(o) && o is WrongPassword ==> {
            &&& reply.0 == 200
            &&& !reply.1.success
            &&& reply.1.error matches Some(m) && m@ == "Invalid password"@
        },
        r matches Err(e) ==> {
            &&& reply.0 == 500
            &&& !reply.1.success
            &&& reply.1.error matches Some(m) && m@ == crate::store::spec_message(*e)
        },
{
    match r {
        Ok(LoginOutcome::Accepted(_)) => (200, LoginResponse::ok()),
        Ok(LoginOutcome::WrongPassword) => (200, LoginResponse::error_display("Invalid password")),
        Err(e) => (500, LoginResponse::error(e.message().as_str())),
    }
}

/// Once a login is registered it stays in the account table: inserting it
/// leaves it present.  Together with the store's contract — `Created` is
/// reported only when the login was absent, and a failed insertion changes
/// nothing — registering the same login twice cannot report `Created` twice,
/// however the attempts interleave with other operations that keep the row.
pub proof fn lemma_registered_login_occupied(
    users: Map<Seq<char>, (int, Seq<char>)>,
    login: Seq<char>,
    row: (int, Seq<char>),
)
    ensures
        users.insert(login, row).contains_key(login),
{
}

/// Registrations of distinct logins do not disturb each other: after both
/// rows are inserted, each login is present and holds its own row.  Since the
/// store serializes its operations and `register` inserts exactly the new row,
/// this is the sequential core of concurrent registrations with distinct
/// logins: all succeed and each account keeps its own hash.
pub proof fn lemma_distinct_registrations_coexist(
    users: Map<Seq<char>, (int, Seq<char>)>,
    first_login: Seq<char>,
    first_row: (int, Seq<char>),
    second_login: Seq<char>,
    second_row: (int, Seq<char>),
)
    requires
        first_login != second_login,
    ensures
        users.insert(first_login, first_row).insert(second_login, second_row).contains_key(
            first_login,
        ),
        users.insert(first_login, first_row).insert(second_login, second_row)[first_login]
            == first_row,
        users.insert(first_login, first_row).insert(second_login, second_row).contains_key(
            second_login,
        ),
        users.insert(first_login, first_row).insert(second_login, second_row)[second_login]
            == second_row,
{
}

} // verus!

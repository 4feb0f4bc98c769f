//! Credential and session store.
//!
//! The store owns the only handle to the backing SQLite database and is the
//! single component that reads or writes account and session rows.  Its two
//! tables are modelled by the uninterpreted maps [`stored_users`] (login name
//! to account id and password hash) and [`stored_sessions`] (session token to
//! account id and expiry timestamp); each trusted wrapper around a SQL
//! statement states how the statement moves those maps.

use vstd::prelude::*;

verus! {

/// Declares rusqlite's `Connection` so that it can stand in signatures and
/// fields; Verus sees nothing inside a value of it.
#[verifier::external_type_specification]
#[verifier::external_body]
pub struct ExConnection(rusqlite::Connection);

/// The rows of the account table: login name to (account id, password hash).
pub uninterp spec fn stored_users(c: rusqlite::Connection) -> Map<Seq<char>, (int, Seq<char>)>;

/// The rows of the session table: token to (account id, expiry timestamp).
pub uninterp spec fn stored_sessions(c: rusqlite::Connection) -> Map<Seq<char>, (int, int)>;

/// Whether the account table exists in the connection's schema.
pub uninterp spec fn users_table_ready(c: rusqlite::Connection) -> bool;

/// Whether the session table exists in the connection's schema.
pub uninterp spec fn sessions_table_ready(c: rusqlite::Connection) -> bool;

/// How a store operation fails: the requested row does not exist, or the
/// backing storage reported a fault.
#[derive(Debug)]
pub enum StoreError {
    NotFound,
    Fault(String),
}

/// The text that [`StoreError::message`] renders a store error as.
pub open spec fn spec_message(e: StoreError) -> Seq<char> {
    match e {
        StoreError::NotFound => "no such record"@,
        StoreError::Fault(text) => text@,
    }
}

impl StoreError {
    /// A short human-readable description, safe to put in a response body.
    pub fn message(&self) -> (m: String)
        ensures
            m@ == spec_message(*self),
    {
        match self {
            StoreError::NotFound => String::from_str("no such record"),
            StoreError::Fault(text) => text.clone(),
        }
    }
}

/// Outcome of a registration: the account was created, or the login name was
/// already taken (a normal answer, not a storage fault).
#[derive(Debug, PartialEq, Eq, Structural)]
pub enum RegisterOutcome {
    Created,
    AlreadyExists,
}

/// An account row.
#[derive(Debug)]
pub struct UserInfo {
    pub id: i32,
    pub login: String,
    pub password_hash: String,
}

/// A session row.  `valid_until` is an absolute expiry instant in seconds
/// since the Unix epoch; the session is live strictly before that instant.
#[derive(Debug)]
pub struct SessionInfo {
    pub id: String,
    pub user_id: i32,
    pub valid_until: i64,
}

/// Relies on rusqlite's `Connection::execute` running
/// `CREATE TABLE IF NOT EXISTS users ...`: on success the account table
/// exists; the statement never adds, removes or alters rows and never drops a
/// table, whether it succeeds or fails.
#[verifier::external_body]
fn create_users_table(conn: &mut rusqlite::Connection) -> (r: Result<(), String>)
    ensures
        stored_users(*final(conn)) == stored_users(*old(conn)),
        stored_sessions(*final(conn)) == stored_sessions(*old(conn)),
        r is Ok ==> users_table_ready(*final(conn)),
        users_table_ready(*old(conn)) ==> users_table_ready(*final(conn)),
        sessions_table_ready(*old(conn)) ==> sessions_table_ready(*final(conn)),
{
    let outcome = conn.execute(
        "create table if not exists users (
             id integer primary key,
             login text not null unique,
             password_hash text not null
         )",
        [],
    );
    match outcome {
        Ok(_) => Ok(()),
        Err(e) => Err(format!("{e:?}")),
    }
}

/// Relies on rusqlite's `Connection::execute` running
/// `CREATE TABLE IF NOT EXISTS sessions ...`: on success the session table
/// exists; the statement never adds, removes or alters rows and never drops a
/// table, whether it succeeds or fails.  The token column is declared `text`,
/// so SQLite stores and compares tokens as exact text (a `string` column
/// would get numeric affinity and alias numeric-looking tokens).
#[verifier::external_body]
fn create_sessions_table(conn: &mut rusqlite::Connection) -> (r: Result<(), String>)
    ensures
        stored_users(*final(conn)) == stored_users(*old(conn)),
        stored_sessions(*final(conn)) == stored_sessions(*old(conn)),
        r is Ok ==> sessions_table_ready(*final(conn)),
        users_table_ready(*old(conn)) ==> users_table_ready(*final(conn)),
        sessions_table_ready(*old(conn)) ==> sessions_table_ready(*final(conn)),
{
    let outcome = conn.execute(
        "create table if not exists sessions (
             id text primary key,
             user_id integer not null,
             valid_until integer not null
         )",
        [],
    );
    match outcome {
        Ok(_) => Ok(()),
        Err(e) => Err(format!("{e:?}")),
    }
}

/// Relies on rusqlite's `Connection::execute` running `INSERT INTO users`:
/// on success the row is added under a fresh id chosen by SQLite; a
/// uniqueness-constraint violation means the login is already present and is
/// reported as `Ok(false)`; a failed statement changes no rows.
#[verifier::external_body]
fn insert_user_row(conn: &mut rusqlite::Connection, login: &str, password_hash: &str) -> (r:
    Result<bool, String>)
    ensures
        r matches Ok(inserted) && inserted ==> {
            &&& !stored_users(*old(conn)).contains_key(login@)
            &&& stored_users(*final(conn)) == stored_users(*old(conn)).insert(
                login@,
                stored_users(*final(conn))[login@],
            )
            &&& stored_users(*final(conn))[login@].1 == password_hash@
            &&& stored_sessions(*final(conn)) == stored_sessions(*old(conn))
        },
        r matches Ok(inserted) && !inserted ==> {
            &&& stored_users(*old(conn)).contains_key(login@)
            &&& stored_users(*final(conn)) == stored_users(*old(conn))
            &&& stored_sessions(*final(conn)) == stored_sessions(*old(conn))
        },
        r is Err ==> {
            &&& stored_users(*final(conn)) == stored_users(*old(conn))
            &&& stored_sessions(*final(conn)) == stored_sessions(*old(conn))
        },
{
    let outcome = conn.execute(
        "INSERT INTO users(login, password_hash) VALUES (?1, ?2)",
        (login, password_hash),
    );
    match outcome {
        Ok(_) => Ok(true),
        Err(rusqlite::Error::SqliteFailure(sql_error, _))
            if sql_error.code == rusqlite::ErrorCode::ConstraintViolation => Ok(false),
        Err(e) => Err(format!("{e:?}")),
    }
}

/// Relies on rusqlite's `Connection::query_row` running
/// `SELECT id, password_hash FROM users WHERE login=?`: it returns the stored
/// row for that login, or `QueryReturnedNoRows` when there is none.
#[verifier::external_body]
fn select_user_row(conn: &rusqlite::Connection, login: &str) -> (r: Result<
    (i32, String),
    RowError,
>)
    ensures
        r matches Ok(row) ==> {
            &&& stored_users(*conn).contains_key(login@)
            &&& stored_users(*conn)[login@] == (row.0 as int, row.1@)
        },
        r matches Err(e) && e is NoRow ==> !stored_users(*conn).contains_key(login@),
{
    let outcome = conn.query_row(
        "SELECT id, password_hash FROM users WHERE login=?1",
        [login],
        |r| {
            let id: i32 = r.get(0)?;
            let password_hash: String = r.get(1)?;
            Ok((id, password_hash))
        },
    );
    match outcome {
        Ok(row) => Ok(row),
        Err(rusqlite::Error::QueryReturnedNoRows) => Err(RowError::NoRow),
        Err(e) => Err(RowError::Fault(format!("{e:?}"))),
    }
}

/// Relies on rusqlite's `Connection::execute` running `INSERT INTO sessions`:
/// on success the row is added under the given token (a primary-key collision
/// would make the statement fail instead); a failed statement changes no rows.
#[verifier::external_body]
fn insert_session_row(
    conn: &mut rusqlite::Connection,
    id: &str,
    user_id: i32,
    valid_until: i64,
) -> (r: Result<(), String>)
    ensures
        r is Ok ==> {
            &&& !stored_sessions(*old(conn)).contains_key(id@)
            &&& stored_sessions(*final(conn)) == stored_sessions(*old(conn)).insert(
                id@,
                (user_id as int, valid_until as int),
            )
            &&& stored_users(*final(conn)) == stored_users(*old(conn))
        },
        r is Err ==> {
            &&& stored_users(*final(conn)) == stored_users(*old(conn))
            &&& stored_sessions(*final(conn)) == stored_sessions(*old(conn))
        },
{
    let outcome = conn.execute(
        "INSERT INTO sessions(id, user_id, valid_until) VALUES (?1, ?2, ?3)",
        (id, user_id, valid_until),
    );
    match outcome {
        Ok(_) => Ok(()),
        Err(e) => Err(format!("{e:?}")),
    }
}

/// Relies on rusqlite's `Connection::execute` running
/// `DELETE FROM sessions WHERE id=?`: on success every row under that token is
/// gone (deleting an absent token succeeds and changes nothing); a failed
/// statement changes no rows.
#[verifier::external_body]
fn delete_session_row(conn: &mut rusqlite::Connection, id: &str) -> (r: Result<(), String>)
    ensures
        r is Ok ==> {
            &&& stored_sessions(*final(conn)) == stored_sessions(*old(conn)).remove(id@)
            &&& stored_users(*final(conn)) == stored_users(*old(conn))
        },
        r is Err ==> {
            &&& stored_users(*final(conn)) == stored_users(*old(conn))
            &&& stored_sessions(*final(conn)) == stored_sessions(*old(conn))
        },
{
    let outcome = conn.execute("DELETE FROM sessions WHERE id=?1", [id]);
    match outcome {
        Ok(_) => Ok(()),
        Err(e) => Err(format!("{e:?}")),
    }
}

/// Relies on rusqlite's `Connection::query_row` running
/// `SELECT user_id, valid_until FROM sessions WHERE id=?`: it returns the
/// stored row for that token, or `QueryReturnedNoRows` when there is none.
#[verifier::external_body]
fn select_session_row(conn: &rusqlite::Connection, id: &str) -> (r: Result<(i32, i64), RowError>)
    ensures
        r matches Ok(row) ==> {
            &&& stored_sessions(*conn).contains_key(id@)
            &&& stored_sessions(*conn)[id@] == (row.0 as int, row.1 as int)
        },
        r matches Err(e) && e is NoRow ==> !stored_sessions(*conn).contains_key(id@),
{
    let outcome = conn.query_row(
        "SELECT user_id, valid_until FROM sessions WHERE id=?1",
        [id],
        |r| {
            let user_id: i32 = r.get(0)?;
            let valid_until: i64 = r.get(1)?;
            Ok((user_id, valid_until))
        },
    );
    match outcome {
        Ok(row) => Ok(row),
        Err(rusqlite::Error::QueryReturnedNoRows) => Err(RowError::NoRow),
        Err(e) => Err(RowError::Fault(format!("{e:?}"))),
    }
}

/// How a single-row query fails: no row matched, or the statement faulted.
enum RowError {
    NoRow,
    Fault(String),
}

/// The credential and session store.  It owns the connection to the backing
/// database; every account or session row is read and written through it.
/// Callers that share a store across tasks serialize access around it, one
/// operation at a time.
pub struct UserDb {
    connection: rusqlite::Connection,
}

impl UserDb {
    /// The account table, as a map from login name to (id, password hash).
    pub closed spec fn users(self) -> Map<Seq<char>, (int, Seq<char>)> {
        stored_users(self.connection)
    }

    /// The session table, as a map from token to (account id, expiry).
    pub closed spec fn sessions(self) -> Map<Seq<char>, (int, int)> {
        stored_sessions(self.connection)
    }

    /// Whether both backing tables exist in the connection's schema.
    pub closed spec fn schema_ready(self) -> bool {
        users_table_ready(self.connection) && sessions_table_ready(self.connection)
    }

    pub fn new(connection: rusqlite::Connection) -> (db: UserDb)
        ensures
            db.users() == stored_users(connection),
            db.sessions() == stored_sessions(connection),
    {
        UserDb { connection }
    }

    /// Idempotently ensures the backing schema exists: on success both tables
    /// are there.  Creating the tables never touches existing rows, so the
    /// store's contents are unchanged whether or not the schema already
    /// existed.
    pub fn initialize(&mut self) -> (r: Result<(), StoreError>)
        ensures
            final(self).users() == old(self).users(),
            final(self).sessions() == old(self).sessions(),
            r is Ok ==> final(self).schema_ready(),
            r matches Err(e) ==> e is Fault,
    {
        match create_users_table(&mut self.connection) {
            Ok(()) => {},
            Err(m) => {
                return Err(StoreError::Fault(m));
            },
        }
        match create_sessions_table(&mut self.connection) {
            Ok(()) => {},
            Err(m) => {
                return Err(StoreError::Fault(m));
            },
        }
        Ok(())
    }

    /// Inserts a new account.  `Created` means the login was free and the row
    /// now exists with the given hash; `AlreadyExists` means the login was
    /// taken and nothing changed; a storage fault changes nothing.
    pub fn register(&mut self, login: &str, password_hash: &str) -> (r: Result<
        RegisterOutcome,
        StoreError,
    >)
        ensures
            final(self).sessions() == old(self).sessions(),
            r matches Ok(o) && o is Created ==> {
                &&& !old(self).users().contains_key(login@)
                &&& final(self).users() == old(self).users().insert(
                    login@,
                    final(self).users()[login@],
                )
                &&& final(self).users()[login@].1 == password_hash@
            },
            r matches Ok(o) && o is AlreadyExists ==> {
                &&& old(self).users().contains_key(login@)
                &&& final(self).users() == old(self).users()
            },
            r is Err ==> final(self).users() == old(self).users(),
            r matches Err(e) ==> e is Fault,
    {
        match insert_user_row(&mut self.connection, login, password_hash) {
            Ok(true) => Ok(RegisterOutcome::Created),
            Ok(false) => Ok(RegisterOutcome::AlreadyExists),
            Err(m) => Err(StoreError::Fault(m)),
        }
    }

    /// Looks an account up by its login name; `NotFound` means no account
    /// has that login.
    pub fn get_user_by_login(&self, login: &str) -> (r: Result<UserInfo, StoreError>)
        ensures
            r matches Ok(u) ==> {
                &&& self.users().contains_key(login@)
                &&& self.users()[login@] == (u.id as int, u.password_hash@)
                &&& u.login@ == login@
            },
            r matches Err(e) && e is NotFound ==> !self.users().contains_key(login@),
    {
        match select_user_row(&self.connection, login) {
            Ok((id, password_hash)) => Ok(
                UserInfo { id, login: String::from_str(login), password_hash },
            ),
            Err(RowError::NoRow) => Err(StoreError::NotFound),
            Err(RowError::Fault(m)) => Err(StoreError::Fault(m)),
        }
    }

    /// Inserts a new session row.  The caller guarantees token uniqueness by
    /// entropy; a colliding token makes the statement fail, never overwrite.
    pub fn create_session(&mut self, id: &str, user_id: i32, valid_until: i64) -> (r: Result<
        (),
        StoreError,
    >)
        ensures
            final(self).users() == old(self).users(),
            r is Ok ==> {
                &&& !old(self).sessions().contains_key(id@)
                &&& final(self).sessions() == old(self).sessions().insert(
                    id@,
                    (user_id as int, valid_until as int),
                )
            },
            r is Err ==> final(self).sessions() == old(self).sessions(),
            r matches Err(e) ==> e is Fault,
    {
        match insert_session_row(&mut self.connection, id, user_id, valid_until) {
            Ok(()) => Ok(()),
            Err(m) => Err(StoreError::Fault(m)),
        }
    }

    /// Deletes the session row if present; removing an absent token succeeds
    /// and changes nothing (the operation is idempotent).
    pub fn remove_session(&mut self, id: &str) -> (r: Result<(), StoreError>)
        ensures
            final(self).users() == old(self).users(),
            r is Ok ==> final(self).sessions() == old(self).sessions().remove(id@),
            r is Err ==> final(self).sessions() == old(self).sessions(),
            r matches Err(e) ==> e is Fault,
    {
        match delete_session_row(&mut self.connection, id) {
            Ok(()) => Ok(()),
            Err(m) => Err(StoreError::Fault(m)),
        }
    }

    /// Looks a session up by its token; `NotFound` means no session has that
    /// token.  Expiry is not checked here: that is the authentication
    /// gate's job.
    pub fn get_session_by_id(&self, id: &str) -> (r: Result<SessionInfo, StoreError>)
        ensures
            r matches Ok(s) ==> {
                &&& self.sessions().contains_key(id@)
                &&& self.sessions()[id@] == (s.user_id as int, s.valid_until as int)
                &&& s.id@ == id@
            },
            r matches Err(e) && e is NotFound ==> !self.sessions().contains_key(id@),
    {
        match select_session_row(&self.connection, id) {
            Ok((user_id, valid_until)) => Ok(
                SessionInfo { id: String::from_str(id), user_id, valid_until },
            ),
            Err(RowError::NoRow) => Err(StoreError::NotFound),
            Err(RowError::Fault(m)) => Err(StoreError::Fault(m)),
        }
    }
}

} // verus!

//! Authentication gate.
//!
//! Every protected operation first resolves the caller's opaque identity token
//! to a live, non-expired session through this gate.  A missing token, an
//! unknown token, an expired session and a storage fault all yield the same
//! outward answer — no session — so a caller learns nothing about why it was
//! turned away.

use crate::store::{SessionInfo, StoreError, UserDb};
use vstd::prelude::*;

verus! {

/// A session whose expiry instant is `valid_until` is live at `now` exactly
/// when `now` is strictly before `valid_until`.
pub open spec fn session_live_at(valid_until: int, now: int) -> bool {
    now < valid_until
}

/// Relies on chrono's `Utc::now`: the current time as whole seconds since the
/// Unix epoch.  Nothing is promised of the value; callers state what holds for
/// every reading of the clock.
#[verifier::external_body]
pub(crate) fn current_timestamp() -> i64 {
    chrono::Utc::now().timestamp()
}

/// The decision owed once the store has answered a token lookup: the found
/// session exactly when it is still live at `now`, and nothing otherwise — an
/// unknown token, an expired session and a storage fault are all turned away
/// alike.
pub open spec fn spec_resolve_session(lookup: Result<SessionInfo, StoreError>, now: i64) -> Option<
    SessionInfo,
> {
    match lookup {
        Ok(s) => if session_live_at(s.valid_until as int, now as int) {
            Some(s)
        } else {
            None
        },
        Err(_) => None,
    }
}

/// Applies that decision to a finished lookup, exactly as
/// [`spec_resolve_session`] says: a found, live session is returned; anything
/// else is refused.
pub fn resolve_session(lookup: Result<SessionInfo, StoreError>, now: i64) -> (r: Option<
    SessionInfo,
>)
    ensures
        r == spec_resolve_session(lookup, now),
{
    match lookup {
        Ok(info) => {
            if now < info.valid_until {
                Some(info)
            } else {
                None
            }
        },
        Err(_) => None,
    }
}

/// Resolves a token to its session as of the instant `now`.
///
/// Returns the session only if the token is present in the store and still
/// live at `now`.  A token that is absent, or whose session has expired,
/// yields `None`; so does a storage fault, so success cannot be promised
/// here: the exact decision owed for each lookup answer is pinned by
/// [`resolve_session`], which this function applies to the store's answer.
pub fn authenticate_at(db: &UserDb, token: Option<&String>, now: i64) -> (r: Option<SessionInfo>)
    ensures
        r matches Some(s) ==> {
            &&& token matches Some(t)
            &&& db.sessions().contains_key(t@)
            &&& db.sessions()[t@] == (s.user_id as int, s.valid_until as int)
            &&& s.id@ == t@
            &&& session_live_at(s.valid_until as int, now as int)
        },
        token is None ==> r is None,
        token matches Some(t) && !db.sessions().contains_key(t@) ==> r is None,
        token matches Some(t) && db.sessions().contains_key(t@) && !session_live_at(
            db.sessions()[t@].1,
            now as int,
        ) ==> r is None,
{
    match token {
        None => None,
        Some(t) => resolve_session(db.get_session_by_id(t.as_str()), now),
    }
}

/// Resolves the caller-held identity token (if any) to a live session as of
/// the current clock reading, guarding every protected handler.
pub fn get_session_from_identity(token: Option<&String>, db: &UserDb) -> (r: Option<SessionInfo>)
    ensures
        r matches Some(s) ==> {
            &&& token matches Some(t)
            &&& db.sessions().contains_key(t@)
            &&& db.sessions()[t@] == (s.user_id as int, s.valid_until as int)
            &&& s.id@ == t@
        },
        token is None ==> r is None,
        token matches Some(t) && !db.sessions().contains_key(t@) ==> r is None,
{
    let now = current_timestamp();
    authenticate_at(db, token, now)
}

/// A session that has reached or passed its expiry instant is dead: even if
/// its row was never deleted, it no longer authenticates anything.
pub proof fn lemma_expiry_ends_session(valid_until: int, now: int)
    requires
        valid_until <= now,
    ensures
        !session_live_at(valid_until, now),
{
}

/// A deleted session cannot be found again: removing a token from the session
/// table leaves no entry under that token, so a later authentication attempt
/// with the same token fails.
pub proof fn lemma_removed_session_stays_gone(sessions: Map<Seq<char>, (int, int)>, token: Seq<
    char,
>)
    ensures
        !sessions.remove(token).contains_key(token),
{
}

} // verus!

use vstd::prelude::*;

use crate::error::AppError;

verus! {

/// Milliseconds in an hour.
pub const MILLIS_PER_HOUR: i64 = 3600000;

/// A login session. Instants are milliseconds since the Unix epoch.
#[derive(Debug, Clone, Copy, PartialEq, Eq, Structural)]
pub struct Session {
    pub id: u128,
    pub user_id: u128,
    pub created_at: i64,
    pub expires_at: i64,
    pub last_active_at: i64,
}

/// A session still valid at `now`: it expires strictly later.
pub open spec fn session_live(s: Session, now: i64) -> bool {
    s.expires_at > now
}

/// A session that clean-up removes at `now`.
pub open spec fn session_expired(s: Session, now: i64) -> bool {
    s.expires_at <= now
}

/// Creates a session for a user at `now`, valid for `duration_hours` hours.
pub fn new_session(id: u128, user_id: u128, now: i64, duration_hours: u64) -> (s: Session)
    requires
        duration_hours * MILLIS_PER_HOUR <= i64::MAX,
        now + duration_hours * MILLIS_PER_HOUR <= i64::MAX,
    ensures
        s.id == id && s.user_id == user_id,
        s.created_at == now && s.last_active_at == now,
        s.expires_at == now + duration_hours * MILLIS_PER_HOUR,
{
    let d: u64 = duration_hours * 3600000u64;
    let lifetime = d as i64;
    Session { id, user_id, created_at: now, expires_at: now + lifetime, last_active_at: now }
}

/// Whether a session is valid at `now`.
pub fn is_session_live(s: &Session, now: i64) -> (r: bool)
    ensures
        r == session_live(*s, now),
{
    s.expires_at > now
}

/// Whether clean-up removes a session at `now`.
pub fn is_session_expired(s: &Session, now: i64) -> (r: bool)
    ensures
        r == session_expired(*s, now),
{
    s.expires_at <= now
}

/// Validates the session found for an identifier at `now` and records the
/// activity: a missing or expired session is unauthorized; a live one comes
/// back with `last_active_at` set to `now`.
pub fn validate_session(found: Option<Session>, now: i64) -> (r: Result<Session, AppError>)
    ensures
        r is Ok <==> (found is Some && session_live(found->0, now)),
        r is Ok ==> r->Ok_0 == (Session { last_active_at: now, ..found->0 }),
        r is Err ==> r->Err_0 is Unauthorized,
{
    match found {
        Some(s) => {
            if s.expires_at > now {
                Ok(Session { last_active_at: now, ..s })
            } else {
                Err(AppError::Unauthorized)
            }
        },
        None => Err(AppError::Unauthorized),
    }
}

/// At every instant a session is either valid or due for clean-up, never
/// both; a fresh session is valid until its lifetime has passed.
pub proof fn lemma_live_or_expired(s: Session, now: i64)
    ensures
        session_live(s, now) != session_expired(s, now),
        s.expires_at > s.created_at && now == s.created_at ==> session_live(s, now),
{
}

} // verus!

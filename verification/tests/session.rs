use gantry_backend::error::AppError;
use gantry_backend::session::{is_session_expired, is_session_live, new_session, validate_session};

#[test]
fn sessions_last_their_duration() {
    let s = new_session(1, 2, 1_000, 24);
    assert_eq!(s.expires_at, 1_000 + 24 * 3_600_000);
    assert_eq!(s.created_at, 1_000);
    assert_eq!(s.last_active_at, 1_000);
    assert!(is_session_live(&s, 1_000));
    assert!(!is_session_expired(&s, 1_000));
    assert!(!is_session_live(&s, s.expires_at));
    assert!(is_session_expired(&s, s.expires_at));
}

#[test]
fn validation_touches_live_sessions_and_refuses_others() {
    let s = new_session(1, 2, 0, 1);
    let v = validate_session(Some(s), 500).unwrap();
    assert_eq!(v.last_active_at, 500);
    assert_eq!(v.expires_at, s.expires_at);
    assert!(matches!(validate_session(Some(s), s.expires_at), Err(AppError::Unauthorized)));
    assert!(matches!(validate_session(None, 0), Err(AppError::Unauthorized)));
}

use gantry_backend::error::AppError;
use gantry_backend::text::decimal;
use gantry_backend::users::{authenticate, escape_like, found_user, found_user_by_email, search_pattern, User};

fn user() -> User {
    User { id: 1, name: "Ann".to_string(), email: "ann@x.io".to_string(), is_admin: false, created_at: 0, updated_at: 0 }
}

#[test]
fn like_wildcards_are_escaped() {
    assert_eq!(escape_like("plain"), "plain");
    assert_eq!(escape_like("50%_off\\"), "50\\%\\_off\\\\");
    assert_eq!(escape_like(""), "");
    assert_eq!(search_pattern("a_b"), "%a\\_b%");
}

#[test]
fn logins_need_a_user_and_a_matching_password() {
    assert!(authenticate(Some(user()), Ok(true)).is_ok());
    assert!(matches!(authenticate(Some(user()), Ok(false)), Err(AppError::InvalidCredentials)));
    assert!(matches!(authenticate(None, Ok(true)), Err(AppError::InvalidCredentials)));
    assert!(matches!(authenticate(Some(user()), Err(AppError::Internal("hash".to_string()))), Err(AppError::Internal(_))));
}

#[test]
fn missing_users_are_not_found() {
    let id = uuid::Uuid::new_v4();
    assert!(matches!(found_user(id.as_u128(), None), Err(AppError::NotFound(m)) if m == format!("user {id} not found")));
    assert!(matches!(found_user_by_email("a@b", None), Err(AppError::NotFound(m)) if m == "user with email a@b not found"));
    assert!(found_user(1, Some(user())).is_ok());
}

#[test]
fn decimal_numerals() {
    assert_eq!(decimal(0), "0");
    assert_eq!(decimal(7), "7");
    assert_eq!(decimal(1234567890), "1234567890");
    assert_eq!(decimal(u64::MAX), u64::MAX.to_string());
}

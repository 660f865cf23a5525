use gantry_backend::authz::{
    authorize_project, parse_member_role, require_author, require_project_admin, require_project_member,
    require_project_owner, role_name, AuthorAction, MemberRole,
};
use gantry_backend::error::AppError;
use uuid::Uuid;

#[test]
fn membership_gives_the_stored_role() {
    let (u, p) = (Uuid::new_v4(), Uuid::new_v4());
    assert!(matches!(require_project_member(u.as_u128(), p.as_u128(), Some("owner"), false), Ok(MemberRole::Owner)));
    assert!(matches!(require_project_member(u.as_u128(), p.as_u128(), Some("admin"), false), Ok(MemberRole::Admin)));
    assert!(matches!(require_project_member(u.as_u128(), p.as_u128(), Some("member"), false), Ok(MemberRole::Member)));
    match require_project_member(u.as_u128(), p.as_u128(), None, false) {
        Err(AppError::Forbidden(m)) => assert_eq!(m, format!("user {u} is not a member of project {p}")),
        other => panic!("unexpected {other:?}"),
    }
    assert!(matches!(
        require_project_member(1, 2, Some("boss"), false),
        Err(AppError::Internal(m)) if m == "unknown variant `boss`, expected one of `owner`, `admin`, `member`"
    ));
}

#[test]
fn nil_user_is_owner_only_when_bypass_is_on() {
    assert!(matches!(require_project_member(0, 5, None, true), Ok(MemberRole::Owner)));
    assert!(matches!(require_project_member(0, 5, None, false), Err(AppError::Forbidden(_))));
}

#[test]
fn admin_check_allows_owner_and_admin() {
    assert!(matches!(require_project_admin(Ok(MemberRole::Owner)), Ok(MemberRole::Owner)));
    assert!(matches!(require_project_admin(Ok(MemberRole::Admin)), Ok(MemberRole::Admin)));
    assert!(matches!(require_project_admin(Ok(MemberRole::Member)), Err(AppError::Forbidden(_))));
    assert!(matches!(require_project_admin(Err(AppError::Forbidden("x".to_string()))), Err(AppError::Forbidden(_))));
}

#[test]
fn owner_check_allows_only_owner() {
    assert!(require_project_owner(Ok(MemberRole::Owner)).is_ok());
    assert!(matches!(require_project_owner(Ok(MemberRole::Admin)), Err(AppError::Forbidden(m)) if m == "insufficient permissions: owner role required"));
    assert!(matches!(require_project_owner(Err(AppError::Forbidden("x".to_string()))), Err(AppError::Forbidden(_))));
}

#[test]
fn project_authorization() {
    assert!(authorize_project(true, 1, Ok(MemberRole::Member)).is_ok());
    assert!(matches!(authorize_project(true, 1, Err(AppError::Forbidden("no".to_string()))), Err(AppError::Forbidden(_))));
    assert!(matches!(authorize_project(false, 1, Ok(MemberRole::Owner)), Err(AppError::NotFound(_))));
}

#[test]
fn only_authors_edit_or_delete() {
    assert!(require_author(3, 3, AuthorAction::EditComment).is_ok());
    assert!(matches!(require_author(3, 4, AuthorAction::EditComment), Err(AppError::Forbidden(m)) if m == "only the comment author can edit this comment"));
    assert!(matches!(require_author(3, 4, AuthorAction::DeleteMessage), Err(AppError::Forbidden(m)) if m == "only the message author can delete this message"));
}

#[test]
fn roles_round_trip_through_their_names() {
    for r in [MemberRole::Owner, MemberRole::Admin, MemberRole::Member] {
        assert_eq!(parse_member_role(role_name(r)), Some(r));
    }
    assert_eq!(parse_member_role("Owner"), None);
}

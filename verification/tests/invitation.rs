use gantry_backend::authz::MemberRole;
use gantry_backend::error::AppError;
use gantry_backend::invitation::{
    check_acceptance, check_invitation_deleted, check_marked_accepted, generate_token, hash_token, hex_encode,
    invitation_expiry, invitation_info, membership_to_grant, MembershipGrant, ProjectInvitation,
};

#[test]
fn test_generate_token_returns_64_hex_chars() {
    let token = generate_token().expect("random source");
    assert_eq!(token.len(), 64); // 32 bytes * 2 hex chars
    assert!(token.chars().all(|c| c.is_ascii_hexdigit()));
}

#[test]
fn test_generate_token_is_unique() {
    let t1 = generate_token().expect("random source");
    let t2 = generate_token().expect("random source");
    assert_ne!(t1, t2);
}

#[test]
fn test_hash_token_is_deterministic() {
    let token = "abc123";
    assert_eq!(hash_token(token), hash_token(token));
}

#[test]
fn test_hash_token_differs_for_different_input() {
    assert_ne!(hash_token("token_a"), hash_token("token_b"));
}

#[test]
fn hash_token_is_sha256_hex() {
    assert_eq!(
        hash_token("abc"),
        "ba7816bf8f01cfea414140de5dae2223b00361a396177a9cb410ff61f20015ad"
    );
    assert_eq!(
        hash_token(""),
        "e3b0c44298fc1c149afbf4c8996fb92427ae41e4649b934ca495991b7852b855"
    );
}

#[test]
fn hex_encode_writes_two_lowercase_digits_per_byte() {
    assert_eq!(hex_encode(&vec![0x00, 0x0f, 0xa5, 0xff]), "000fa5ff");
    assert_eq!(hex_encode(&vec![]), "");
}

fn invitation(accepted_at: Option<i64>, expires_at: i64) -> ProjectInvitation {
    ProjectInvitation {
        id: 1,
        project_id: 2,
        invited_by: 3,
        invited_by_name: "Inviter".to_string(),
        project_name: "Project".to_string(),
        role: MemberRole::Member,
        expires_at,
        accepted_at,
        accepted_by: None,
        created_at: 0,
    }
}

#[test]
fn acceptance_refuses_unknown_accepted_and_expired() {
    assert!(matches!(check_acceptance(None, 10), Err(AppError::NotFound(m)) if m == "invalid invitation token"));
    assert!(matches!(
        check_acceptance(Some(invitation(Some(5), 100)), 10),
        Err(AppError::Conflict(m)) if m == "invitation has already been accepted"
    ));
    assert!(matches!(
        check_acceptance(Some(invitation(None, 9)), 10),
        Err(AppError::Validation(m)) if m == "invitation has expired"
    ));
    assert!(check_acceptance(Some(invitation(None, 10)), 10).is_ok());
    assert!(check_acceptance(Some(invitation(None, 100)), 10).is_ok());
}

#[test]
fn acceptance_window_closes_for_good() {
    let inv = invitation(None, 50);
    assert!(check_acceptance(Some(inv.clone()), 50).is_ok());
    assert!(check_acceptance(Some(inv.clone()), 51).is_err());
    assert!(check_acceptance(Some(inv), 1000).is_err());
}

#[test]
fn marking_and_deleting_need_a_row() {
    assert!(check_marked_accepted(1).is_ok());
    assert!(matches!(check_marked_accepted(0), Err(AppError::Conflict(_))));
    assert!(check_invitation_deleted(7, 1).is_ok());
    let id = uuid::Uuid::new_v4();
    match check_invitation_deleted(id.as_u128(), 0) {
        Err(AppError::NotFound(m)) => assert_eq!(m, format!("invitation not found: {id}")),
        other => panic!("unexpected {other:?}"),
    }
}

#[test]
fn info_reports_expiry_and_acceptance() {
    let info = invitation_info(Some(invitation(None, 9)), 10).unwrap();
    assert!(info.expired);
    assert!(!info.accepted);
    let info = invitation_info(Some(invitation(Some(1), 10)), 10).unwrap();
    assert!(!info.expired);
    assert!(info.accepted);
    assert!(matches!(invitation_info(None, 0), Err(AppError::NotFound(_))));
}

#[test]
fn invitations_expire_after_72_hours() {
    assert_eq!(invitation_expiry(1_000), 1_000 + 72 * 3_600_000);
}

#[test]
fn accepting_grants_the_invited_role_to_newcomers_only() {
    let inv = invitation(None, 100);
    assert_eq!(
        membership_to_grant(&inv, 9, false),
        Some(MembershipGrant { project_id: inv.project_id, user_id: 9, role: MemberRole::Member })
    );
    assert_eq!(membership_to_grant(&inv, 9, true), None);
}

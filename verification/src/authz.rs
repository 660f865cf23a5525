use vstd::prelude::*;

use crate::error::AppError;
use crate::ids::{format_uuid, uuid_text};
use crate::text::{join3, same_text};

verus! {

/// Role of a user within a project.
#[derive(Debug, Clone, Copy, PartialEq, Eq, Structural)]
pub enum MemberRole {
    Owner,
    Admin,
    Member,
}

/// A user's membership in a project.
#[derive(Debug, Clone)]
pub struct ProjectMember {
    pub project_id: u128,
    pub user_id: u128,
    pub role: MemberRole,
    pub user_name: String,
    pub user_email: String,
    pub created_at: i64,
}

/// The name under which a role is stored and serialized.
pub open spec fn role_label(r: MemberRole) -> Seq<char> {
    match r {
        MemberRole::Owner => "owner"@,
        MemberRole::Admin => "admin"@,
        MemberRole::Member => "member"@,
    }
}

/// The role that a stored name denotes.
pub open spec fn role_from_label(s: Seq<char>) -> Option<MemberRole> {
    if s == "owner"@ {
        Some(MemberRole::Owner)
    } else if s == "admin"@ {
        Some(MemberRole::Admin)
    } else if s == "member"@ {
        Some(MemberRole::Member)
    } else {
        None
    }
}

/// The name under which a role is stored and serialized.
pub fn role_name(r: MemberRole) -> (s: &'static str)
    ensures
        s@ == role_label(r),
{
    match r {
        MemberRole::Owner => "owner",
        MemberRole::Admin => "admin",
        MemberRole::Member => "member",
    }
}

/// Reads a stored role name.
pub fn parse_member_role(s: &str) -> (r: Option<MemberRole>)
    ensures
        r == role_from_label(s@),
{
    if same_text(s, "owner") {
        Some(MemberRole::Owner)
    } else if same_text(s, "admin") {
        Some(MemberRole::Admin)
    } else if same_text(s, "member") {
        Some(MemberRole::Member)
    } else {
        None
    }
}

/// Message of a user outside the project.
pub open spec fn not_member_text(user_id: u128, project_id: u128) -> Seq<char> {
    "user "@ + uuid_text(user_id) + " is not a member of project "@ + uuid_text(project_id)
}

/// Message of a stored role that is not one of the known names, as serde
/// reports an unknown variant of the role.
pub open spec fn bad_role_text(stored: Seq<char>) -> Seq<char> {
    "unknown variant `"@ + stored + "`, expected one of `owner`, `admin`, `member`"@
}

/// The internal error of a stored role that is not one of the known names.
pub fn unknown_role_error(stored: &str) -> (e: AppError)
    ensures
        e is Internal && e.text() == bad_role_text(stored@),
{
    AppError::Internal(join3("unknown variant `", stored, "`, expected one of `owner`, `admin`, `member`"))
}

/// The outcome of the membership check, given the role stored for the user in
/// the project (`None` where there is no membership). The nil user stands for
/// every user where `nil_bypass` is set (authentication switched off in
/// development builds) and counts as owner.
pub open spec fn member_check_ok(user_id: u128, stored: Option<Seq<char>>, nil_bypass: bool) -> Option<MemberRole> {
    if nil_bypass && user_id == 0 {
        Some(MemberRole::Owner)
    } else {
        match stored {
            Some(s) => role_from_label(s),
            None => None,
        }
    }
}

/// Checks that a user is a member of a project (any role) and gives the role.
/// A user without membership is forbidden; a stored role that is not a known
/// name is an internal error.
pub fn require_project_member(user_id: u128, project_id: u128, stored: Option<&str>, nil_bypass: bool) -> (r: Result<MemberRole, AppError>)
    ensures
        r is Ok <==> member_check_ok(user_id, match stored { Some(s) => Some(s@), None => None }, nil_bypass) is Some,
        r is Ok ==> r->Ok_0 == member_check_ok(user_id, match stored { Some(s) => Some(s@), None => None }, nil_bypass)->0,
        r is Err && stored is None ==> r->Err_0 is Forbidden && r->Err_0.text() == not_member_text(user_id, project_id),
        r is Err && stored is Some ==> r->Err_0 is Internal && r->Err_0.text() == bad_role_text(stored->0@),
{
    if nil_bypass && user_id == 0 {
        return Ok(MemberRole::Owner);
    }
    match stored {
        Some(s) => {
            match parse_member_role(s) {
                Some(role) => Ok(role),
                None => Err(unknown_role_error(s)),
            }
        },
        None => {
            let msg = String::from_str("user ").concat(format_uuid(user_id).as_str()).concat(
                " is not a member of project ",
            ).concat(format_uuid(project_id).as_str());
            Err(AppError::Forbidden(msg))
        },
    }
}

/// Roles that may administer a project.
pub open spec fn admin_allowed(r: MemberRole) -> bool {
    r == MemberRole::Owner || r == MemberRole::Admin
}

/// Message of a refused admin action.
pub open spec fn admin_required_text() -> Seq<char> {
    "insufficient permissions: admin or owner role required"@
}

/// Message of a refused owner action.
pub open spec fn owner_required_text() -> Seq<char> {
    "insufficient permissions: owner role required"@
}

/// Checks that a membership check passed with the owner or admin role.
pub fn require_project_admin(membership: Result<MemberRole, AppError>) -> (r: Result<MemberRole, AppError>)
    ensures
        membership is Err ==> r == membership,
        membership is Ok ==> (r is Ok <==> admin_allowed(membership->Ok_0)),
        membership is Ok && r is Ok ==> r->Ok_0 == membership->Ok_0,
        membership is Ok && r is Err ==> r->Err_0 is Forbidden && r->Err_0.text() == admin_required_text(),
{
    match membership {
        Err(e) => Err(e),
        Ok(role) => {
            match role {
                MemberRole::Owner | MemberRole::Admin => Ok(role),
                MemberRole::Member => Err(
                    AppError::Forbidden(String::from_str("insufficient permissions: admin or owner role required")),
                ),
            }
        },
    }
}

/// Checks that a membership check passed with the owner role.
pub fn require_project_owner(membership: Result<MemberRole, AppError>) -> (r: Result<(), AppError>)
    ensures
        membership is Err ==> r is Err && r->Err_0 == membership->Err_0,
        membership is Ok ==> (r is Ok <==> membership->Ok_0 == MemberRole::Owner),
        membership is Ok && r is Err ==> r->Err_0 is Forbidden && r->Err_0.text() == owner_required_text(),
{
    match membership {
        Err(e) => Err(e),
        Ok(role) => {
            match role {
                MemberRole::Owner => Ok(()),
                _ => Err(AppError::Forbidden(String::from_str("insufficient permissions: owner role required"))),
            }
        },
    }
}

/// The roles form a ladder: whoever passes the owner check passes the admin
/// check; and every role reads back from the name it is stored under.
pub proof fn lemma_role_ladder(r: MemberRole)
    ensures
        r == MemberRole::Owner ==> admin_allowed(r),
        role_from_label(role_label(r)) == Some(r),
{
    reveal_strlit("owner");
    reveal_strlit("admin");
    reveal_strlit("member");
    assert("admin"@[0] != "owner"@[0]);
    assert("member"@.len() != "owner"@.len());
    assert("member"@.len() != "admin"@.len());
}

/// Message of a missing project.
pub open spec fn project_not_found_text(project_id: u128) -> Seq<char> {
    "project "@ + uuid_text(project_id) + " not found"@
}

/// Verifies a project exists and the user is a member: a missing project is
/// not found, otherwise the membership check decides.
pub fn authorize_project(project_exists: bool, project_id: u128, membership: Result<MemberRole, AppError>) -> (r: Result<(), AppError>)
    ensures
        !project_exists ==> r is Err && r->Err_0 is NotFound && r->Err_0.text() == project_not_found_text(project_id),
        project_exists ==> (r is Ok <==> membership is Ok),
        project_exists && r is Err ==> r->Err_0 == membership->Err_0,
{
    if !project_exists {
        let msg = String::from_str("project ").concat(format_uuid(project_id).as_str()).concat(" not found");
        return Err(AppError::NotFound(msg));
    }
    match membership {
        Ok(_) => Ok(()),
        Err(e) => Err(e),
    }
}

/// The author-only actions on comments and messages.
#[derive(Debug, Clone, Copy, PartialEq, Eq, Structural)]
pub enum AuthorAction {
    EditComment,
    DeleteComment,
    DeleteMessage,
}

/// Message of a refused author-only action.
pub open spec fn author_only_text(a: AuthorAction) -> Seq<char> {
    match a {
        AuthorAction::EditComment => "only the comment author can edit this comment"@,
        AuthorAction::DeleteComment => "only the comment author can delete this comment"@,
        AuthorAction::DeleteMessage => "only the message author can delete this message"@,
    }
}

/// Only the author of a comment or message may edit or delete it.
pub fn require_author(author_id: u128, user_id: u128, action: AuthorAction) -> (r: Result<(), AppError>)
    ensures
        r is Ok <==> author_id == user_id,
        r is Err ==> r->Err_0 is Forbidden && r->Err_0.text() == author_only_text(action),
{
    if author_id != user_id {
        let msg = match action {
            AuthorAction::EditComment => String::from_str("only the comment author can edit this comment"),
            AuthorAction::DeleteComment => String::from_str("only the comment author can delete this comment"),
            AuthorAction::DeleteMessage => String::from_str("only the message author can delete this message"),
        };
        return Err(AppError::Forbidden(msg));
    }
    Ok(())
}

/// Message of a missing membership.
pub open spec fn member_not_found_text(user_id: u128, project_id: u128) -> Seq<char> {
    "member "@ + uuid_text(user_id) + " not found in project "@ + uuid_text(project_id)
}

/// The result of a lookup of a membership: the member, or not found.
pub fn found_member(user_id: u128, project_id: u128, found: Option<ProjectMember>) -> (r: Result<ProjectMember, AppError>)
    ensures
        found is Some ==> r == Ok::<ProjectMember, AppError>(found->0),
        found is None ==> r is Err && r->Err_0 is NotFound && r->Err_0.text() == member_not_found_text(user_id, project_id),
{
    match found {
        Some(m) => Ok(m),
        None => {
            let msg = String::from_str("member ").concat(format_uuid(user_id).as_str()).concat(" not found in project ").concat(
                format_uuid(project_id).as_str(),
            );
            Err(AppError::NotFound(msg))
        },
    }
}

/// Checks that removing a membership removed a row.
pub fn check_member_removed(user_id: u128, project_id: u128, rows: u64) -> (r: Result<(), AppError>)
    ensures
        r is Ok <==> rows > 0,
        r is Err ==> r->Err_0 is NotFound && r->Err_0.text() == member_not_found_text(user_id, project_id),
{
    if rows == 0 {
        let msg = String::from_str("member ").concat(format_uuid(user_id).as_str()).concat(" not found in project ").concat(
            format_uuid(project_id).as_str(),
        );
        return Err(AppError::NotFound(msg));
    }
    Ok(())
}

/// Membership after a role change: the same membership with the new role.
pub fn with_role(member: ProjectMember, role: MemberRole) -> (m: ProjectMember)
    ensures
        m == (ProjectMember { role, ..member }),
{
    ProjectMember { role, ..member }
}

} // verus!

use vstd::prelude::*;

use crate::agent_session::clone_opt_string;
use crate::error::AppError;
use crate::ids::{format_uuid, uuid_text};
use crate::text::{is_white_space, trim, trim_text};

verus! {

/// A project: a board of tasks, optionally tied to a git repository.
#[derive(Debug, Clone)]
pub struct Project {
    pub id: u128,
    pub name: String,
    pub description: Option<String>,
    pub repository_path: Option<String>,
    pub created_at: i64,
    pub updated_at: i64,
}

/// Request to create a project.
#[derive(Debug, Clone)]
pub struct CreateProjectRequest {
    pub name: String,
    pub description: Option<String>,
    pub repository_path: Option<String>,
}

/// Request to change a project; absent fields keep their value.
#[derive(Debug, Clone)]
pub struct UpdateProjectRequest {
    pub name: Option<String>,
    pub description: Option<String>,
    pub repository_path: Option<String>,
}

/// A new project, created and updated at `now`.
pub open spec fn new_project_spec(id: u128, req: CreateProjectRequest, now: i64) -> Project {
    Project {
        id,
        name: req.name,
        description: req.description,
        repository_path: req.repository_path,
        created_at: now,
        updated_at: now,
    }
}

/// Builds the record of a new project.
pub fn new_project(id: u128, req: &CreateProjectRequest, now: i64) -> (p: Project)
    ensures
        p == new_project_spec(id, *req, now),
{
    Project {
        id,
        name: req.name.clone(),
        description: clone_opt_string(&req.description),
        repository_path: clone_opt_string(&req.repository_path),
        created_at: now,
        updated_at: now,
    }
}

/// A project after an update at `now`: each field the request gives replaces
/// the stored one, the others are kept.
pub open spec fn updated_project_spec(e: Project, req: UpdateProjectRequest, now: i64) -> Project {
    Project {
        id: e.id,
        name: match req.name { Some(n) => n, None => e.name },
        description: match req.description { Some(d) => Some(d), None => e.description },
        repository_path: match req.repository_path { Some(r) => Some(r), None => e.repository_path },
        created_at: e.created_at,
        updated_at: now,
    }
}

/// Merges an update into a stored project.
pub fn merge_project_update(existing: Project, req: &UpdateProjectRequest, now: i64) -> (p: Project)
    ensures
        p == updated_project_spec(existing, *req, now),
{
    Project {
        id: existing.id,
        name: match &req.name { Some(n) => n.clone(), None => existing.name },
        description: match &req.description { Some(d) => Some(d.clone()), None => existing.description },
        repository_path: match &req.repository_path { Some(r) => Some(r.clone()), None => existing.repository_path },
        created_at: existing.created_at,
        updated_at: now,
    }
}

/// Message of a missing project.
pub open spec fn missing_project_text(id: u128) -> Seq<char> {
    "project "@ + uuid_text(id) + " not found"@
}

/// The result of a lookup of project `id`: the project, or not found.
pub fn found_project(id: u128, found: Option<Project>) -> (r: Result<Project, AppError>)
    ensures
        found is Some ==> r == Ok::<Project, AppError>(found->0),
        found is None ==> r is Err && r->Err_0 is NotFound && r->Err_0.text() == missing_project_text(id),
{
    match found {
        Some(p) => Ok(p),
        None => {
            let msg = String::from_str("project ").concat(format_uuid(id).as_str()).concat(" not found");
            Err(AppError::NotFound(msg))
        },
    }
}

/// Whether a path exists on disk, with `std::path::Path::exists`.
///
/// Trusted: nothing is stated of the answer; it depends on the disk.
#[verifier::external_body]
fn path_exists(path: &str) -> bool {
    std::path::Path::new(path).exists()
}

/// Whether a path names a directory, with `std::path::Path::is_dir`.
///
/// Trusted: nothing is stated of the answer; it depends on the disk.
#[verifier::external_body]
fn path_is_dir(path: &str) -> bool {
    std::path::Path::new(path).is_dir()
}

/// Whether `git2::Repository::open` opens a repository at the path.
///
/// Trusted: nothing is stated of the answer; it depends on the disk.
#[verifier::external_body]
fn git_repository_opens(path: &str) -> bool {
    git2::Repository::open(path).is_ok()
}

/// Message of an empty repository path.
pub open spec fn empty_path_text() -> Seq<char> {
    "repository path is empty"@
}

/// The verdict on a repository path, given its trimmed form and what the disk
/// says of it: the first check that fails names the problem.
pub open spec fn repository_verdict_text(trimmed: Seq<char>, exists: bool, is_dir: bool, is_repo: bool) -> Option<Seq<char>> {
    if trimmed.len() == 0 {
        Some(empty_path_text())
    } else if !exists {
        Some("repository path does not exist: "@ + trimmed)
    } else if !is_dir {
        Some("repository path is not a directory: "@ + trimmed)
    } else if !is_repo {
        Some("path is not a valid git repository: "@ + trimmed)
    } else {
        None
    }
}

/// Decides on a trimmed repository path, given whether it exists, whether it
/// is a directory and whether a git repository opens there.
pub fn check_repository_path(trimmed: &str, exists: bool, is_dir: bool, is_repo: bool) -> (r: Result<(), AppError>)
    ensures
        r is Ok <==> repository_verdict_text(trimmed@, exists, is_dir, is_repo) is None,
        r is Err ==> r->Err_0 is Validation && r->Err_0.text() == repository_verdict_text(trimmed@, exists, is_dir, is_repo)->0,
{
    if trimmed.unicode_len() == 0 {
        return Err(AppError::Validation(String::from_str("repository path is empty")));
    }
    if !exists {
        return Err(AppError::Validation(String::from_str("repository path does not exist: ").concat(trimmed)));
    }
    if !is_dir {
        return Err(AppError::Validation(String::from_str("repository path is not a directory: ").concat(trimmed)));
    }
    if !is_repo {
        return Err(AppError::Validation(String::from_str("path is not a valid git repository: ").concat(trimmed)));
    }
    Ok(())
}

/// Validates that a repository path points to a valid git repository: the
/// path, with surrounding white space removed, must be non-empty, exist, be a
/// directory and hold a repository that git opens. What the disk answers is
/// not known here; the outcome is `check_repository_path` of those answers.
pub fn validate_repository_path(path: &str) -> (r: Result<(), AppError>)
    ensures
        trim_text(path@).len() == 0 ==> r is Err && r->Err_0 is Validation && r->Err_0.text() == empty_path_text(),
        r is Err ==> r->Err_0 is Validation,
        exists|e: bool, d: bool, g: bool|
            (r is Ok <==> repository_verdict_text(trim_text(path@), e, d, g) is None)
            && (r is Err ==> r->Err_0.text() == repository_verdict_text(trim_text(path@), e, d, g)->0),
{
    let trimmed = trim(path);
    if trimmed.unicode_len() == 0 {
        return check_repository_path(trimmed, false, false, false);
    }
    let exists = path_exists(trimmed);
    if !exists {
        return check_repository_path(trimmed, false, false, false);
    }
    let is_dir = path_is_dir(trimmed);
    if !is_dir {
        return check_repository_path(trimmed, true, false, false);
    }
    let is_repo = git_repository_opens(trimmed);
    check_repository_path(trimmed, true, true, is_repo)
}

/// Checks that deleting a project removed a row.
pub fn check_project_deleted(id: u128, rows: u64) -> (r: Result<(), AppError>)
    ensures
        r is Ok <==> rows > 0,
        r is Err ==> r->Err_0 is NotFound && r->Err_0.text() == missing_project_text(id),
{
    if rows == 0 {
        return Err(AppError::NotFound(String::from_str("project ").concat(format_uuid(id).as_str()).concat(" not found")));
    }
    Ok(())
}

} // verus!

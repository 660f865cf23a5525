use vstd::prelude::*;

use crate::error::AppError;
use crate::ids::{format_uuid, uuid_text};
use crate::text::same_text;

verus! {

/// A project's link to a GitHub repository.
#[derive(Debug, Clone)]
pub struct GitHubLink {
    pub id: u128,
    pub project_id: u128,
    pub repo_owner: String,
    pub repo_name: String,
    pub sync_enabled: bool,
    pub last_synced_at: Option<i64>,
    pub created_at: i64,
    pub updated_at: i64,
}

/// Mapping of a task to a GitHub issue.
#[derive(Debug, Clone, Copy, PartialEq, Eq, Structural)]
pub struct GitHubIssueMapping {
    pub id: u128,
    pub task_id: u128,
    pub github_link_id: u128,
    pub github_issue_number: i64,
    pub github_issue_id: Option<i64>,
    pub last_local_update: Option<i64>,
    pub last_remote_update: Option<i64>,
    pub created_at: i64,
}

/// State of a pull request.
#[derive(Debug, Clone, Copy, PartialEq, Eq, Structural)]
pub enum PrState {
    Open,
    Closed,
}

/// A pull request linked to a task.
#[derive(Debug, Clone)]
pub struct GitHubPullRequest {
    pub id: u128,
    pub github_link_id: u128,
    pub task_id: u128,
    pub pr_number: i64,
    pub title: String,
    pub url: String,
    pub state: PrState,
    pub is_merged: bool,
    pub author: Option<String>,
    pub created_at: i64,
    pub updated_at: i64,
}

/// A pull request as GitHub reports it for a task.
#[derive(Debug, Clone)]
pub struct LinkedPr {
    pub pr_number: u64,
    pub title: String,
    pub url: String,
    pub state: String,
    pub is_merged: bool,
    pub author: Option<String>,
}

/// Outcome of a synchronisation run.
#[derive(Debug, Clone, Copy, PartialEq, Eq, Structural)]
pub struct SyncResult {
    pub project_id: u128,
    pub pushed: u64,
    pub pulled: u64,
}

/// The state that a stored or reported state name denotes: `closed` is
/// closed, anything else open.
pub open spec fn pr_state_of(s: Seq<char>) -> PrState {
    if s == "closed"@ {
        PrState::Closed
    } else {
        PrState::Open
    }
}

/// The name under which a state is stored.
pub open spec fn pr_state_label(s: PrState) -> Seq<char> {
    match s {
        PrState::Open => "open"@,
        PrState::Closed => "closed"@,
    }
}

/// Reads a state name: `closed` is closed, anything else open.
pub fn parse_pr_state(s: &str) -> (r: PrState)
    ensures
        r == pr_state_of(s@),
{
    if same_text(s, "closed") {
        PrState::Closed
    } else {
        PrState::Open
    }
}

/// The name under which a reported state is stored: `closed` stays, anything
/// else becomes `open`.
pub fn stored_pr_state(s: &str) -> (r: &'static str)
    ensures
        r@ == pr_state_label(pr_state_of(s@)),
{
    if same_text(s, "closed") {
        "closed"
    } else {
        "open"
    }
}

/// Message of a missing link.
pub open spec fn link_not_found_text(project_id: u128) -> Seq<char> {
    "github link for project "@ + uuid_text(project_id) + " not found"@
}

/// The result of a lookup of a project's link: the link, or not found.
pub fn found_link(project_id: u128, found: Option<GitHubLink>) -> (r: Result<GitHubLink, AppError>)
    ensures
        found is Some ==> r == Ok::<GitHubLink, AppError>(found->0),
        found is None ==> r is Err && r->Err_0 is NotFound && r->Err_0.text() == link_not_found_text(project_id),
{
    match found {
        Some(l) => Ok(l),
        None => {
            let msg = String::from_str("github link for project ").concat(format_uuid(project_id).as_str()).concat(
                " not found",
            );
            Err(AppError::NotFound(msg))
        },
    }
}

/// Checks that a delete or update of a project's link changed a row.
pub fn check_link_changed(project_id: u128, rows: u64) -> (r: Result<(), AppError>)
    ensures
        r is Ok <==> rows > 0,
        r is Err ==> r->Err_0 is NotFound && r->Err_0.text() == link_not_found_text(project_id),
{
    if rows == 0 {
        let msg = String::from_str("github link for project ").concat(format_uuid(project_id).as_str()).concat(
            " not found",
        );
        return Err(AppError::NotFound(msg));
    }
    Ok(())
}

/// A state survives storage: the stored name reads back as the same state.
pub proof fn lemma_pr_state_round_trip(s: PrState)
    ensures
        pr_state_of(pr_state_label(s)) == s,
{
    reveal_strlit("open");
    reveal_strlit("closed");
    assert("open"@.len() != "closed"@.len());
}

} // verus!

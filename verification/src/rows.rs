//! Stored rows as the database hands them over (identifiers as text), and
//! their conversion into the records of the service layer.

use vstd::prelude::*;

use crate::agent_session::{agent_type_from_label, parse_agent_type, parse_session_status, status_from_label, AgentSession};
use crate::authz::{parse_member_role, role_from_label, unknown_role_error, ProjectMember};
use crate::content::{ProjectMessage, TaskComment};
use crate::error::AppError;
use crate::github::{parse_pr_state, pr_state_of, GitHubIssueMapping, GitHubLink, GitHubPullRequest};
use crate::ids::{parse_uuid, uuid_parse};
use crate::invitation::ProjectInvitation;
use crate::preview::{parse_preview_status, preview_status_from_label, DockerPreview};
use crate::projects::Project;
use crate::tasks::{parse_priority, parse_task_status, priority_from_label, task_status_from_label, Task};
use crate::users::User;

verus! {

/// Reads a stored identifier; text that is not a UUID is an internal error
/// that carries the parser's message.
pub fn parse_id(text: &str) -> (r: Result<u128, AppError>)
    ensures
        r is Ok <==> uuid_parse(text@) is Ok,
        r is Ok ==> r->Ok_0 == uuid_parse(text@)->Ok_0,
        r is Err ==> r->Err_0 is Internal && r->Err_0.text() == uuid_parse(text@)->Err_0,
{
    match parse_uuid(text) {
        Ok(id) => Ok(id),
        Err(message) => Err(AppError::Internal(message)),
    }
}

/// Message of a stored name that denotes no known value.
pub open spec fn bad_label_text(text: Seq<char>) -> Seq<char> {
    "unknown stored value: "@ + text
}

/// The internal error of a stored name that denotes no known value.
pub fn bad_label(text: &str) -> (e: AppError)
    ensures
        e is Internal && e.text() == bad_label_text(text@),
{
    AppError::Internal(String::from_str("unknown stored value: ").concat(text))
}

/// The identifier that an optional stored text denotes.
pub open spec fn opt_id(text: Option<Seq<char>>) -> Option<Option<u128>> {
    match text {
        None => Some(None),
        Some(t) => match uuid_parse(t) {
            Ok(id) => Some(Some(id)),
            Err(_) => None,
        },
    }
}

/// The text of an optional string.
pub open spec fn opt_view(o: Option<String>) -> Option<Seq<char>> {
    match o {
        Some(s) => Some(s@),
        None => None,
    }
}

/// Reads an optional stored identifier.
pub fn parse_opt_id(text: &Option<String>) -> (r: Result<Option<u128>, AppError>)
    ensures
        r is Ok <==> opt_id(opt_view(*text)) is Some,
        r is Ok ==> r->Ok_0 == opt_id(opt_view(*text))->0,
        r is Err ==> r->Err_0 is Internal,
{
    match text {
        None => Ok(None),
        Some(t) => match parse_id(t.as_str()) {
            Ok(id) => Ok(Some(id)),
            Err(e) => Err(e),
        },
    }
}

/// A stored task.
pub struct TaskRow {
    pub id: String,
    pub project_id: String,
    pub title: String,
    pub description: Option<String>,
    pub status: String,
    pub priority: String,
    pub parent_id: Option<String>,
    pub assigned_to: Option<String>,
    pub position: i32,
    pub created_at: i64,
    pub updated_at: i64,
}

/// Converts a stored task; every identifier must read as a UUID, and the
/// status and priority as one of their names.
pub fn task_from_row(row: TaskRow) -> (r: Result<Task, AppError>)
    ensures
        r is Ok <==> (uuid_parse(row.id@) is Ok && uuid_parse(row.project_id@) is Ok
            && opt_id(opt_view(row.parent_id)) is Some && opt_id(opt_view(row.assigned_to)) is Some
            && task_status_from_label(row.status@) is Some && priority_from_label(row.priority@) is Some),
        r is Ok ==> r->Ok_0 == (Task {
            id: uuid_parse(row.id@)->Ok_0,
            project_id: uuid_parse(row.project_id@)->Ok_0,
            title: row.title,
            description: row.description,
            status: task_status_from_label(row.status@)->0,
            priority: priority_from_label(row.priority@)->0,
            parent_id: opt_id(opt_view(row.parent_id))->0,
            assigned_to: opt_id(opt_view(row.assigned_to))->0,
            position: row.position,
            created_at: row.created_at,
            updated_at: row.updated_at,
        }),
        r is Err ==> r->Err_0 is Internal,
{
    let id = match parse_id(row.id.as_str()) { Ok(v) => v, Err(e) => { return Err(e); } };
    let project_id = match parse_id(row.project_id.as_str()) { Ok(v) => v, Err(e) => { return Err(e); } };
    let parent_id = match parse_opt_id(&row.parent_id) { Ok(v) => v, Err(e) => { return Err(e); } };
    let assigned_to = match parse_opt_id(&row.assigned_to) { Ok(v) => v, Err(e) => { return Err(e); } };
    let status = match parse_task_status(row.status.as_str()) { Some(v) => v, None => { return Err(bad_label(row.status.as_str())); } };
    let priority = match parse_priority(row.priority.as_str()) { Some(v) => v, None => { return Err(bad_label(row.priority.as_str())); } };
    Ok(Task {
        id,
        project_id,
        title: row.title,
        description: row.description,
        status,
        priority,
        parent_id,
        assigned_to,
        position: row.position,
        created_at: row.created_at,
        updated_at: row.updated_at,
    })
}

/// A stored agent session.
pub struct AgentSessionRow {
    pub id: String,
    pub task_id: String,
    pub agent_type: String,
    pub status: String,
    pub prompt: Option<String>,
    pub worktree_name: Option<String>,
    pub started_at: Option<i64>,
    pub finished_at: Option<i64>,
    pub created_at: i64,
    pub updated_at: i64,
}

/// Converts a stored agent session; both identifiers must read as UUIDs,
/// and the agent type and status as one of their names.
pub fn agent_session_from_row(row: AgentSessionRow) -> (r: Result<AgentSession, AppError>)
    ensures
        r is Ok <==> (uuid_parse(row.id@) is Ok && uuid_parse(row.task_id@) is Ok
            && agent_type_from_label(row.agent_type@) is Some && status_from_label(row.status@) is Some),
        r is Ok ==> r->Ok_0 == (AgentSession {
            id: uuid_parse(row.id@)->Ok_0,
            task_id: uuid_parse(row.task_id@)->Ok_0,
            agent_type: agent_type_from_label(row.agent_type@)->0,
            status: status_from_label(row.status@)->0,
            prompt: row.prompt,
            worktree_name: row.worktree_name,
            started_at: row.started_at,
            finished_at: row.finished_at,
            created_at: row.created_at,
            updated_at: row.updated_at,
        }),
        r is Err ==> r->Err_0 is Internal,
{
    let id = match parse_id(row.id.as_str()) { Ok(v) => v, Err(e) => { return Err(e); } };
    let task_id = match parse_id(row.task_id.as_str()) { Ok(v) => v, Err(e) => { return Err(e); } };
    let agent_type = match parse_agent_type(row.agent_type.as_str()) { Some(v) => v, None => { return Err(bad_label(row.agent_type.as_str())); } };
    let status = match parse_session_status(row.status.as_str()) { Some(v) => v, None => { return Err(bad_label(row.status.as_str())); } };
    Ok(AgentSession {
        id,
        task_id,
        agent_type,
        status,
        prompt: row.prompt,
        worktree_name: row.worktree_name,
        started_at: row.started_at,
        finished_at: row.finished_at,
        created_at: row.created_at,
        updated_at: row.updated_at,
    })
}

/// One stored line of agent output.
#[derive(Debug, Clone)]
pub struct AgentSessionOutput {
    pub id: i64,
    pub session_id: u128,
    pub sequence: i64,
    pub content: String,
    pub created_at: i64,
}

/// A stored line of agent output.
pub struct AgentSessionOutputRow {
    pub id: i64,
    pub session_id: String,
    pub sequence: i64,
    pub content: String,
    pub created_at: i64,
}

/// Converts a stored output line; its session identifier must read as a UUID.
pub fn output_from_row(row: &AgentSessionOutputRow) -> (r: Result<AgentSessionOutput, AppError>)
    ensures
        r is Ok <==> uuid_parse(row.session_id@) is Ok,
        r is Ok ==> r->Ok_0 == (AgentSessionOutput {
            id: row.id,
            session_id: uuid_parse(row.session_id@)->Ok_0,
            sequence: row.sequence,
            content: row.content,
            created_at: row.created_at,
        }),
        r is Err ==> r->Err_0 is Internal,
{
    let session_id = match parse_id(row.session_id.as_str()) { Ok(v) => v, Err(e) => { return Err(e); } };
    Ok(AgentSessionOutput { id: row.id, session_id, sequence: row.sequence, content: row.content.clone(), created_at: row.created_at })
}

/// Converts stored output lines in order; the first that fails stops the conversion.
pub fn outputs_from_rows(rows: &Vec<AgentSessionOutputRow>) -> (r: Result<Vec<AgentSessionOutput>, AppError>)
    ensures
        r is Ok <==> forall|i: int| 0 <= i < rows@.len() ==> uuid_parse(#[trigger] rows@[i].session_id@) is Ok,
        r is Ok ==> r->Ok_0@.len() == rows@.len() && forall|i: int| 0 <= i < rows@.len() ==> {
            &&& (#[trigger] r->Ok_0@[i]).id == rows@[i].id
            &&& r->Ok_0@[i].session_id == uuid_parse(rows@[i].session_id@)->Ok_0
            &&& r->Ok_0@[i].sequence == rows@[i].sequence
            &&& r->Ok_0@[i].content == rows@[i].content
            &&& r->Ok_0@[i].created_at == rows@[i].created_at
        },
        r is Err ==> r->Err_0 is Internal,
{
    let mut out: Vec<AgentSessionOutput> = Vec::new();
    let mut i: usize = 0;
    while i < rows.len()
        invariant
            0 <= i <= rows@.len(),
            out@.len() == i,
            forall|k: int| 0 <= k < i ==> uuid_parse(#[trigger] rows@[k].session_id@) is Ok,
            forall|k: int| 0 <= k < i ==> {
                &&& (#[trigger] out@[k]).id == rows@[k].id
                &&& out@[k].session_id == uuid_parse(rows@[k].session_id@)->Ok_0
                &&& out@[k].sequence == rows@[k].sequence
                &&& out@[k].content == rows@[k].content
                &&& out@[k].created_at == rows@[k].created_at
            },
        decreases rows@.len() - i,
    {
        match output_from_row(&rows[i]) {
            Ok(o) => out.push(o),
            Err(e) => {
                return Err(e);
            },
        }
        i = i + 1;
    }
    Ok(out)
}

/// A stored comment.
pub struct CommentRow {
    pub id: String,
    pub task_id: String,
    pub user_id: String,
    pub user_name: String,
    pub content: String,
    pub created_at: i64,
    pub updated_at: i64,
}

/// Converts a stored comment; its identifiers must read as UUIDs.
pub fn comment_from_row(row: CommentRow) -> (r: Result<TaskComment, AppError>)
    ensures
        r is Ok <==> (uuid_parse(row.id@) is Ok && uuid_parse(row.task_id@) is Ok && uuid_parse(row.user_id@) is Ok),
        r is Ok ==> r->Ok_0 == (TaskComment {
            id: uuid_parse(row.id@)->Ok_0,
            task_id: uuid_parse(row.task_id@)->Ok_0,
            user_id: uuid_parse(row.user_id@)->Ok_0,
            user_name: row.user_name,
            content: row.content,
            created_at: row.created_at,
            updated_at: row.updated_at,
        }),
        r is Err ==> r->Err_0 is Internal,
{
    let id = match parse_id(row.id.as_str()) { Ok(v) => v, Err(e) => { return Err(e); } };
    let task_id = match parse_id(row.task_id.as_str()) { Ok(v) => v, Err(e) => { return Err(e); } };
    let user_id = match parse_id(row.user_id.as_str()) { Ok(v) => v, Err(e) => { return Err(e); } };
    Ok(TaskComment {
        id,
        task_id,
        user_id,
        user_name: row.user_name,
        content: row.content,
        created_at: row.created_at,
        updated_at: row.updated_at,
    })
}

/// A stored project message.
pub struct MessageRow {
    pub id: String,
    pub project_id: String,
    pub user_id: String,
    pub user_name: String,
    pub content: String,
    pub created_at: i64,
}

/// Converts a stored message; its identifiers must read as UUIDs.
pub fn message_from_row(row: MessageRow) -> (r: Result<ProjectMessage, AppError>)
    ensures
        r is Ok <==> (uuid_parse(row.id@) is Ok && uuid_parse(row.project_id@) is Ok && uuid_parse(row.user_id@) is Ok),
        r is Ok ==> r->Ok_0 == (ProjectMessage {
            id: uuid_parse(row.id@)->Ok_0,
            project_id: uuid_parse(row.project_id@)->Ok_0,
            user_id: uuid_parse(row.user_id@)->Ok_0,
            user_name: row.user_name,
            content: row.content,
            created_at: row.created_at,
        }),
        r is Err ==> r->Err_0 is Internal,
{
    let id = match parse_id(row.id.as_str()) { Ok(v) => v, Err(e) => { return Err(e); } };
    let project_id = match parse_id(row.project_id.as_str()) { Ok(v) => v, Err(e) => { return Err(e); } };
    let user_id = match parse_id(row.user_id.as_str()) { Ok(v) => v, Err(e) => { return Err(e); } };
    Ok(ProjectMessage { id, project_id, user_id, user_name: row.user_name, content: row.content, created_at: row.created_at })
}

/// A stored issue mapping.
pub struct MappingRow {
    pub id: String,
    pub task_id: String,
    pub github_link_id: String,
    pub github_issue_number: i64,
    pub github_issue_id: Option<i64>,
    pub last_local_update: Option<i64>,
    pub last_remote_update: Option<i64>,
    pub created_at: i64,
}

/// Converts a stored issue mapping; its identifiers must read as UUIDs.
pub fn mapping_from_row(row: MappingRow) -> (r: Result<GitHubIssueMapping, AppError>)
    ensures
        r is Ok <==> (uuid_parse(row.id@) is Ok && uuid_parse(row.task_id@) is Ok && uuid_parse(row.github_link_id@) is Ok),
        r is Ok ==> r->Ok_0 == (GitHubIssueMapping {
            id: uuid_parse(row.id@)->Ok_0,
            task_id: uuid_parse(row.task_id@)->Ok_0,
            github_link_id: uuid_parse(row.github_link_id@)->Ok_0,
            github_issue_number: row.github_issue_number,
            github_issue_id: row.github_issue_id,
            last_local_update: row.last_local_update,
            last_remote_update: row.last_remote_update,
            created_at: row.created_at,
        }),
        r is Err ==> r->Err_0 is Internal,
{
    let id = match parse_id(row.id.as_str()) { Ok(v) => v, Err(e) => { return Err(e); } };
    let task_id = match parse_id(row.task_id.as_str()) { Ok(v) => v, Err(e) => { return Err(e); } };
    let github_link_id = match parse_id(row.github_link_id.as_str()) { Ok(v) => v, Err(e) => { return Err(e); } };
    Ok(GitHubIssueMapping {
        id,
        task_id,
        github_link_id,
        github_issue_number: row.github_issue_number,
        github_issue_id: row.github_issue_id,
        last_local_update: row.last_local_update,
        last_remote_update: row.last_remote_update,
        created_at: row.created_at,
    })
}

/// A stored GitHub link.
pub struct GitHubLinkRow {
    pub id: String,
    pub project_id: String,
    pub repo_owner: String,
    pub repo_name: String,
    pub sync_enabled: bool,
    pub last_synced_at: Option<i64>,
    pub created_at: i64,
    pub updated_at: i64,
}

/// Converts a stored GitHub link; its identifiers must read as UUIDs.
pub fn link_from_row(row: GitHubLinkRow) -> (r: Result<GitHubLink, AppError>)
    ensures
        r is Ok <==> (uuid_parse(row.id@) is Ok && uuid_parse(row.project_id@) is Ok),
        r is Ok ==> r->Ok_0 == (GitHubLink {
            id: uuid_parse(row.id@)->Ok_0,
            project_id: uuid_parse(row.project_id@)->Ok_0,
            repo_owner: row.repo_owner,
            repo_name: row.repo_name,
            sync_enabled: row.sync_enabled,
            last_synced_at: row.last_synced_at,
            created_at: row.created_at,
            updated_at: row.updated_at,
        }),
        r is Err ==> r->Err_0 is Internal,
{
    let id = match parse_id(row.id.as_str()) { Ok(v) => v, Err(e) => { return Err(e); } };
    let project_id = match parse_id(row.project_id.as_str()) { Ok(v) => v, Err(e) => { return Err(e); } };
    Ok(GitHubLink {
        id,
        project_id,
        repo_owner: row.repo_owner,
        repo_name: row.repo_name,
        sync_enabled: row.sync_enabled,
        last_synced_at: row.last_synced_at,
        created_at: row.created_at,
        updated_at: row.updated_at,
    })
}

/// A stored pull request; its state is a name.
pub struct PrRow {
    pub id: String,
    pub github_link_id: String,
    pub task_id: String,
    pub pr_number: i64,
    pub title: String,
    pub url: String,
    pub state: String,
    pub is_merged: bool,
    pub author: Option<String>,
    pub created_at: i64,
    pub updated_at: i64,
}

/// Converts a stored pull request: its identifiers must read as UUIDs, and
/// its state reads as closed for `closed` and open otherwise.
pub fn pr_from_row(row: PrRow) -> (r: Result<GitHubPullRequest, AppError>)
    ensures
        r is Ok <==> (uuid_parse(row.id@) is Ok && uuid_parse(row.github_link_id@) is Ok && uuid_parse(row.task_id@) is Ok),
        r is Ok ==> r->Ok_0 == (GitHubPullRequest {
            id: uuid_parse(row.id@)->Ok_0,
            github_link_id: uuid_parse(row.github_link_id@)->Ok_0,
            task_id: uuid_parse(row.task_id@)->Ok_0,
            pr_number: row.pr_number,
            title: row.title,
            url: row.url,
            state: pr_state_of(row.state@),
            is_merged: row.is_merged,
            author: row.author,
            created_at: row.created_at,
            updated_at: row.updated_at,
        }),
        r is Err ==> r->Err_0 is Internal,
{
    let state = parse_pr_state(row.state.as_str());
    let id = match parse_id(row.id.as_str()) { Ok(v) => v, Err(e) => { return Err(e); } };
    let github_link_id = match parse_id(row.github_link_id.as_str()) { Ok(v) => v, Err(e) => { return Err(e); } };
    let task_id = match parse_id(row.task_id.as_str()) { Ok(v) => v, Err(e) => { return Err(e); } };
    Ok(GitHubPullRequest {
        id,
        github_link_id,
        task_id,
        pr_number: row.pr_number,
        title: row.title,
        url: row.url,
        state,
        is_merged: row.is_merged,
        author: row.author,
        created_at: row.created_at,
        updated_at: row.updated_at,
    })
}

/// A stored membership.
pub struct MemberRow {
    pub project_id: String,
    pub user_id: String,
    pub role: String,
    pub user_name: String,
    pub user_email: String,
    pub created_at: i64,
}

/// Converts a stored membership; its identifiers must read as UUIDs and its
/// role as one of the role names.
pub fn member_from_row(row: MemberRow) -> (r: Result<ProjectMember, AppError>)
    ensures
        r is Ok <==> (uuid_parse(row.project_id@) is Ok && uuid_parse(row.user_id@) is Ok && role_from_label(row.role@) is Some),
        r is Ok ==> r->Ok_0 == (ProjectMember {
            project_id: uuid_parse(row.project_id@)->Ok_0,
            user_id: uuid_parse(row.user_id@)->Ok_0,
            role: role_from_label(row.role@)->0,
            user_name: row.user_name,
            user_email: row.user_email,
            created_at: row.created_at,
        }),
        r is Err ==> r->Err_0 is Internal,
{
    let project_id = match parse_id(row.project_id.as_str()) { Ok(v) => v, Err(e) => { return Err(e); } };
    let user_id = match parse_id(row.user_id.as_str()) { Ok(v) => v, Err(e) => { return Err(e); } };
    let role = match parse_member_role(row.role.as_str()) { Some(v) => v, None => { return Err(unknown_role_error(row.role.as_str())); } };
    Ok(ProjectMember { project_id, user_id, role, user_name: row.user_name, user_email: row.user_email, created_at: row.created_at })
}

/// A stored project.
pub struct ProjectRow {
    pub id: String,
    pub name: String,
    pub description: Option<String>,
    pub repository_path: Option<String>,
    pub created_at: i64,
    pub updated_at: i64,
}

/// Converts a stored project; its identifier must read as a UUID.
pub fn project_from_row(row: ProjectRow) -> (r: Result<Project, AppError>)
    ensures
        r is Ok <==> uuid_parse(row.id@) is Ok,
        r is Ok ==> r->Ok_0 == (Project {
            id: uuid_parse(row.id@)->Ok_0,
            name: row.name,
            description: row.description,
            repository_path: row.repository_path,
            created_at: row.created_at,
            updated_at: row.updated_at,
        }),
        r is Err ==> r->Err_0 is Internal,
{
    let id = match parse_id(row.id.as_str()) { Ok(v) => v, Err(e) => { return Err(e); } };
    Ok(Project {
        id,
        name: row.name,
        description: row.description,
        repository_path: row.repository_path,
        created_at: row.created_at,
        updated_at: row.updated_at,
    })
}

/// A stored invitation, joined with the names of its project and inviter;
/// its role is a name.
pub struct InvitationRow {
    pub id: String,
    pub project_id: String,
    pub invited_by: String,
    pub invited_by_name: String,
    pub project_name: String,
    pub role: String,
    pub expires_at: i64,
    pub accepted_at: Option<i64>,
    pub accepted_by: Option<String>,
    pub created_at: i64,
}

/// Converts a stored invitation: its identifiers must read as UUIDs and its
/// role as one of the role names.
pub fn invitation_from_row(row: InvitationRow) -> (r: Result<ProjectInvitation, AppError>)
    ensures
        r is Ok <==> (uuid_parse(row.id@) is Ok && uuid_parse(row.project_id@) is Ok && uuid_parse(row.invited_by@) is Ok
            && role_from_label(row.role@) is Some && opt_id(opt_view(row.accepted_by)) is Some),
        r is Ok ==> r->Ok_0 == (ProjectInvitation {
            id: uuid_parse(row.id@)->Ok_0,
            project_id: uuid_parse(row.project_id@)->Ok_0,
            invited_by: uuid_parse(row.invited_by@)->Ok_0,
            invited_by_name: row.invited_by_name,
            project_name: row.project_name,
            role: role_from_label(row.role@)->0,
            expires_at: row.expires_at,
            accepted_at: row.accepted_at,
            accepted_by: opt_id(opt_view(row.accepted_by))->0,
            created_at: row.created_at,
        }),
        r is Err ==> r->Err_0 is Internal,
{
    let id = match parse_id(row.id.as_str()) { Ok(v) => v, Err(e) => { return Err(e); } };
    let project_id = match parse_id(row.project_id.as_str()) { Ok(v) => v, Err(e) => { return Err(e); } };
    let invited_by = match parse_id(row.invited_by.as_str()) { Ok(v) => v, Err(e) => { return Err(e); } };
    let role = match parse_member_role(row.role.as_str()) {
        Some(r) => r,
        None => {
            return Err(unknown_role_error(row.role.as_str()));
        },
    };
    let accepted_by = match parse_opt_id(&row.accepted_by) { Ok(v) => v, Err(e) => { return Err(e); } };
    Ok(ProjectInvitation {
        id,
        project_id,
        invited_by,
        invited_by_name: row.invited_by_name,
        project_name: row.project_name,
        role,
        expires_at: row.expires_at,
        accepted_at: row.accepted_at,
        accepted_by,
        created_at: row.created_at,
    })
}

/// A stored preview.
pub struct DockerPreviewRow {
    pub id: String,
    pub worktree_name: String,
    pub container_id: Option<String>,
    pub port: Option<i32>,
    pub status: String,
    pub preview_url: Option<String>,
    pub error_message: Option<String>,
    pub created_at: i64,
    pub updated_at: i64,
}

/// Converts a stored preview; its identifier must read as a UUID and its
/// status as one of the status names.
pub fn preview_from_row(row: DockerPreviewRow) -> (r: Result<DockerPreview, AppError>)
    ensures
        r is Ok <==> uuid_parse(row.id@) is Ok && preview_status_from_label(row.status@) is Some,
        r is Ok ==> r->Ok_0 == (DockerPreview {
            id: uuid_parse(row.id@)->Ok_0,
            worktree_name: row.worktree_name,
            container_id: row.container_id,
            port: row.port,
            status: preview_status_from_label(row.status@)->0,
            preview_url: row.preview_url,
            error_message: row.error_message,
            created_at: row.created_at,
            updated_at: row.updated_at,
        }),
        r is Err ==> r->Err_0 is Internal,
{
    let id = match parse_id(row.id.as_str()) { Ok(v) => v, Err(e) => { return Err(e); } };
    let status = match parse_preview_status(row.status.as_str()) { Some(v) => v, None => { return Err(bad_label(row.status.as_str())); } };
    Ok(DockerPreview {
        id,
        worktree_name: row.worktree_name,
        container_id: row.container_id,
        port: row.port,
        status,
        preview_url: row.preview_url,
        error_message: row.error_message,
        created_at: row.created_at,
        updated_at: row.updated_at,
    })
}

/// A stored user, without the password hash.
pub struct UserRow {
    pub id: String,
    pub name: String,
    pub email: String,
    pub is_admin: bool,
    pub created_at: i64,
    pub updated_at: i64,
}

/// Converts a stored user; its identifier must read as a UUID.
pub fn user_from_row(row: UserRow) -> (r: Result<User, AppError>)
    ensures
        r is Ok <==> uuid_parse(row.id@) is Ok,
        r is Ok ==> r->Ok_0 == (User {
            id: uuid_parse(row.id@)->Ok_0,
            name: row.name,
            email: row.email,
            is_admin: row.is_admin,
            created_at: row.created_at,
            updated_at: row.updated_at,
        }),
        r is Err ==> r->Err_0 is Internal,
{
    let id = match parse_id(row.id.as_str()) { Ok(v) => v, Err(e) => { return Err(e); } };
    Ok(User { id, name: row.name, email: row.email, is_admin: row.is_admin, created_at: row.created_at, updated_at: row.updated_at })
}

} // verus!

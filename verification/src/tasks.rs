use vstd::prelude::*;

use crate::agent_session::clone_opt_string;
use crate::error::AppError;
use crate::ids::{format_uuid, uuid_text};

verus! {

/// Workflow column of a task.
#[derive(Debug, Clone, Copy, PartialEq, Eq, Structural)]
pub enum TaskStatus {
    Backlog,
    Todo,
    InProgress,
    Done,
}

/// Urgency of a task.
#[derive(Debug, Clone, Copy, PartialEq, Eq, Structural)]
pub enum TaskPriority {
    Low,
    Medium,
    High,
    Urgent,
}

/// A task on a project's board. Identifiers are the 128-bit values of UUIDs;
/// instants are milliseconds since the Unix epoch.
#[derive(Debug, Clone)]
pub struct Task {
    pub id: u128,
    pub project_id: u128,
    pub title: String,
    pub description: Option<String>,
    pub status: TaskStatus,
    pub priority: TaskPriority,
    pub parent_id: Option<u128>,
    pub assigned_to: Option<u128>,
    pub position: i32,
    pub created_at: i64,
    pub updated_at: i64,
}

/// Request to create a task.
#[derive(Debug, Clone)]
pub struct CreateTaskRequest {
    pub project_id: u128,
    pub title: String,
    pub description: Option<String>,
    pub status: Option<TaskStatus>,
    pub priority: Option<TaskPriority>,
    pub parent_id: Option<u128>,
    pub assigned_to: Option<u128>,
}

/// Request to change a task; absent fields keep their value.
#[derive(Debug, Clone)]
pub struct UpdateTaskRequest {
    pub title: Option<String>,
    pub description: Option<String>,
    pub status: Option<TaskStatus>,
    pub priority: Option<TaskPriority>,
    pub parent_id: Option<u128>,
    pub assigned_to: Option<u128>,
    pub position: Option<i32>,
}

/// The name under which a status is stored and serialized.
pub open spec fn task_status_label(s: TaskStatus) -> Seq<char> {
    match s {
        TaskStatus::Backlog => "backlog"@,
        TaskStatus::Todo => "todo"@,
        TaskStatus::InProgress => "in_progress"@,
        TaskStatus::Done => "done"@,
    }
}

/// The name under which a status is stored and serialized (the metric label of
/// a status change).
pub fn task_status_name(s: TaskStatus) -> (r: &'static str)
    ensures
        r@ == task_status_label(s),
{
    match s {
        TaskStatus::Backlog => "backlog",
        TaskStatus::Todo => "todo",
        TaskStatus::InProgress => "in_progress",
        TaskStatus::Done => "done",
    }
}

/// A new task: status backlog and priority medium unless the request says
/// otherwise, at position 0, created and updated at `now`.
pub open spec fn new_task_spec(id: u128, req: CreateTaskRequest, now: i64) -> Task {
    Task {
        id,
        project_id: req.project_id,
        title: req.title,
        description: req.description,
        status: match req.status { Some(s) => s, None => TaskStatus::Backlog },
        priority: match req.priority { Some(p) => p, None => TaskPriority::Medium },
        parent_id: req.parent_id,
        assigned_to: req.assigned_to,
        position: 0,
        created_at: now,
        updated_at: now,
    }
}

/// Builds the record of a new task.
pub fn new_task(id: u128, req: &CreateTaskRequest, now: i64) -> (t: Task)
    ensures
        t == new_task_spec(id, *req, now),
{
    Task {
        id,
        project_id: req.project_id,
        title: req.title.clone(),
        description: clone_opt_string(&req.description),
        status: match req.status { Some(s) => s, None => TaskStatus::Backlog },
        priority: match req.priority { Some(p) => p, None => TaskPriority::Medium },
        parent_id: req.parent_id,
        assigned_to: req.assigned_to,
        position: 0,
        created_at: now,
        updated_at: now,
    }
}

/// A task after an update at `now`: each field the request gives replaces
/// the stored one, the others are kept.
pub open spec fn updated_task_spec(e: Task, req: UpdateTaskRequest, now: i64) -> Task {
    Task {
        id: e.id,
        project_id: e.project_id,
        title: match req.title { Some(t) => t, None => e.title },
        description: match req.description { Some(d) => Some(d), None => e.description },
        status: match req.status { Some(s) => s, None => e.status },
        priority: match req.priority { Some(p) => p, None => e.priority },
        parent_id: match req.parent_id { Some(p) => Some(p), None => e.parent_id },
        assigned_to: match req.assigned_to { Some(a) => Some(a), None => e.assigned_to },
        position: match req.position { Some(p) => p, None => e.position },
        created_at: e.created_at,
        updated_at: now,
    }
}

/// Merges an update into a stored task, and says whether the status changed.
pub fn merge_task_update(existing: Task, req: &UpdateTaskRequest, now: i64) -> (r: (Task, bool))
    ensures
        r.0 == updated_task_spec(existing, *req, now),
        r.1 == (r.0.status != existing.status),
        r.0.id == existing.id && r.0.project_id == existing.project_id && r.0.created_at == existing.created_at,
        r.0.updated_at == now,
        req.title is Some ==> r.0.title == req.title->0,
        req.title is None ==> r.0.title == existing.title,
        req.description is Some ==> r.0.description == req.description,
        req.description is None ==> r.0.description == existing.description,
        req.status is Some ==> r.0.status == req.status->0,
        req.status is None ==> r.0.status == existing.status,
        req.priority is Some ==> r.0.priority == req.priority->0,
        req.priority is None ==> r.0.priority == existing.priority,
        req.parent_id is Some ==> r.0.parent_id == req.parent_id,
        req.parent_id is None ==> r.0.parent_id == existing.parent_id,
        req.assigned_to is Some ==> r.0.assigned_to == req.assigned_to,
        req.assigned_to is None ==> r.0.assigned_to == existing.assigned_to,
        req.position is Some ==> r.0.position == req.position->0,
        req.position is None ==> r.0.position == existing.position,
{
    let status = match req.status { Some(s) => s, None => existing.status };
    let changed = status != existing.status;
    let t = Task {
        id: existing.id,
        project_id: existing.project_id,
        title: match &req.title { Some(t) => t.clone(), None => existing.title },
        description: match &req.description { Some(d) => Some(d.clone()), None => existing.description },
        status,
        priority: match req.priority { Some(p) => p, None => existing.priority },
        parent_id: match req.parent_id { Some(p) => Some(p), None => existing.parent_id },
        assigned_to: match req.assigned_to { Some(a) => Some(a), None => existing.assigned_to },
        position: match req.position { Some(p) => p, None => existing.position },
        created_at: existing.created_at,
        updated_at: now,
    };
    (t, changed)
}

/// Message of an assignee that does not exist.
pub open spec fn unknown_assignee_text(user_id: u128) -> Seq<char> {
    "assigned user "@ + uuid_text(user_id) + " does not exist"@
}

/// Message of an assignee outside the project.
pub open spec fn outside_assignee_text(user_id: u128, project_id: u128) -> Seq<char> {
    "assigned user "@ + uuid_text(user_id) + " is not a member of project "@ + uuid_text(project_id)
}

/// Checks the assignee of a task in `project_id`, given whether the assigned
/// user exists and whether that user is a member of the project (the two
/// lookups matter only where a user is assigned).
pub fn validate_assigned_to(assigned_to: Option<u128>, project_id: u128, user_exists: bool, is_member: bool) -> (r: Result<(), AppError>)
    ensures
        r is Ok <==> (assigned_to is None || (user_exists && is_member)),
        r is Err ==> r->Err_0 is Validation,
        r is Err && !user_exists ==> r->Err_0.text() == unknown_assignee_text(assigned_to->0),
        r is Err && user_exists ==> r->Err_0.text() == outside_assignee_text(assigned_to->0, project_id),
{
    match assigned_to {
        None => Ok(()),
        Some(user_id) => {
            if !user_exists {
                let msg = String::from_str("assigned user ").concat(format_uuid(user_id).as_str()).concat(
                    " does not exist",
                );
                return Err(AppError::Validation(msg));
            }
            if !is_member {
                let msg = String::from_str("assigned user ").concat(format_uuid(user_id).as_str()).concat(
                    " is not a member of project ",
                ).concat(format_uuid(project_id).as_str());
                return Err(AppError::Validation(msg));
            }
            Ok(())
        },
    }
}

/// Message of a parent task that does not exist.
pub open spec fn missing_parent_text(parent_id: u128) -> Seq<char> {
    "parent task "@ + uuid_text(parent_id) + " does not exist"@
}

/// Message of a parent task in another project.
pub open spec fn foreign_parent_text() -> Seq<char> {
    "parent task must belong to the same project"@
}

/// Checks the parent of a task in `project_id`, given the project of the
/// parent task as looked up (`None` where no such task exists).
pub fn validate_parent_project(parent_id: Option<u128>, project_id: u128, parent_project: Option<u128>) -> (r: Result<(), AppError>)
    ensures
        r is Ok <==> (parent_id is None || parent_project == Some(project_id)),
        r is Err ==> r->Err_0 is Validation,
        r is Err && parent_project is None ==> r->Err_0.text() == missing_parent_text(parent_id->0),
        r is Err && parent_project is Some ==> r->Err_0.text() == foreign_parent_text(),
{
    match parent_id {
        None => Ok(()),
        Some(pid) => {
            match parent_project {
                None => {
                    let msg = String::from_str("parent task ").concat(format_uuid(pid).as_str()).concat(
                        " does not exist",
                    );
                    Err(AppError::Validation(msg))
                },
                Some(pp) => {
                    if pp != project_id {
                        Err(AppError::Validation(String::from_str("parent task must belong to the same project")))
                    } else {
                        Ok(())
                    }
                },
            }
        },
    }
}

/// Message of a missing task.
pub open spec fn task_not_found_text(id: u128) -> Seq<char> {
    "task "@ + uuid_text(id) + " not found"@
}

/// The result of a lookup of task `id`: the task, or not found.
pub fn found_task(id: u128, found: Option<Task>) -> (r: Result<Task, AppError>)
    ensures
        found is Some ==> r == Ok::<Task, AppError>(found->0),
        found is None ==> r is Err && r->Err_0 is NotFound && r->Err_0.text() == task_not_found_text(id),
{
    match found {
        Some(t) => Ok(t),
        None => {
            let msg = String::from_str("task ").concat(format_uuid(id).as_str()).concat(" not found");
            Err(AppError::NotFound(msg))
        },
    }
}

/// An update replaces exactly the fields that the request gives and keeps
/// the others; the task's identity, project and creation instant never change,
/// and the update instant is the time of the update.
pub proof fn lemma_update_replaces_given_fields(e: Task, req: UpdateTaskRequest, now: i64)
    ensures
        ({
            let u = updated_task_spec(e, req, now);
            &&& u.id == e.id && u.project_id == e.project_id && u.created_at == e.created_at
            &&& u.updated_at == now
            &&& (req.title is Some ==> u.title == req.title->0) && (req.title is None ==> u.title == e.title)
            &&& (req.description is Some ==> u.description == req.description)
            &&& (req.description is None ==> u.description == e.description)
            &&& (req.status is Some ==> u.status == req.status->0) && (req.status is None ==> u.status == e.status)
            &&& (req.priority is Some ==> u.priority == req.priority->0)
            &&& (req.priority is None ==> u.priority == e.priority)
            &&& (req.parent_id is Some ==> u.parent_id == req.parent_id) && (req.parent_id is None ==> u.parent_id == e.parent_id)
            &&& (req.assigned_to is Some ==> u.assigned_to == req.assigned_to)
            &&& (req.assigned_to is None ==> u.assigned_to == e.assigned_to)
            &&& (req.position is Some ==> u.position == req.position->0) && (req.position is None ==> u.position == e.position)
        }),
{
}

/// An update that gives no field changes nothing but the update instant.
pub proof fn lemma_empty_update_keeps_task(e: Task, now: i64)
    ensures
        ({
            let req = UpdateTaskRequest {
                title: None,
                description: None,
                status: None,
                priority: None,
                parent_id: None,
                assigned_to: None,
                position: None,
            };
            updated_task_spec(e, req, now) == Task { updated_at: now, ..e }
        }),
{
}

/// Checks that deleting a task removed a row.
pub fn check_task_deleted(id: u128, rows: u64) -> (r: Result<(), AppError>)
    ensures
        r is Ok <==> rows > 0,
        r is Err ==> r->Err_0 is NotFound && r->Err_0.text() == task_not_found_text(id),
{
    if rows == 0 {
        return Err(AppError::NotFound(String::from_str("task ").concat(format_uuid(id).as_str()).concat(" not found")));
    }
    Ok(())
}

/// Fetches a task for a user: a missing task is not found, otherwise the
/// membership check on the task's project decides, and the task comes back.
pub fn authorize_task(task_id: u128, found: Option<Task>, membership: Result<crate::authz::MemberRole, AppError>) -> (r: Result<Task, AppError>)
    ensures
        found is None ==> r is Err && r->Err_0 is NotFound && r->Err_0.text() == task_not_found_text(task_id),
        found is Some ==> (r is Ok <==> membership is Ok),
        found is Some && r is Ok ==> r->Ok_0 == found->0,
        found is Some && r is Err ==> r->Err_0 == membership->Err_0,
{
    match found_task(task_id, found) {
        Err(e) => Err(e),
        Ok(task) => match membership {
            Ok(_) => Ok(task),
            Err(e) => Err(e),
        },
    }
}

/// The status that a stored name denotes.
pub open spec fn task_status_from_label(s: Seq<char>) -> Option<TaskStatus> {
    if s == "backlog"@ {
        Some(TaskStatus::Backlog)
    } else if s == "todo"@ {
        Some(TaskStatus::Todo)
    } else if s == "in_progress"@ {
        Some(TaskStatus::InProgress)
    } else if s == "done"@ {
        Some(TaskStatus::Done)
    } else {
        None
    }
}

/// Reads a stored task status name.
pub fn parse_task_status(s: &str) -> (r: Option<TaskStatus>)
    ensures
        r == task_status_from_label(s@),
{
    if crate::text::same_text(s, "backlog") {
        Some(TaskStatus::Backlog)
    } else if crate::text::same_text(s, "todo") {
        Some(TaskStatus::Todo)
    } else if crate::text::same_text(s, "in_progress") {
        Some(TaskStatus::InProgress)
    } else if crate::text::same_text(s, "done") {
        Some(TaskStatus::Done)
    } else {
        None
    }
}

/// The name under which a priority is stored and serialized.
pub open spec fn priority_label(p: TaskPriority) -> Seq<char> {
    match p {
        TaskPriority::Low => "low"@,
        TaskPriority::Medium => "medium"@,
        TaskPriority::High => "high"@,
        TaskPriority::Urgent => "urgent"@,
    }
}

/// The name under which a priority is stored and serialized.
pub fn priority_name(p: TaskPriority) -> (r: &'static str)
    ensures
        r@ == priority_label(p),
{
    match p {
        TaskPriority::Low => "low",
        TaskPriority::Medium => "medium",
        TaskPriority::High => "high",
        TaskPriority::Urgent => "urgent",
    }
}

/// The priority that a stored name denotes.
pub open spec fn priority_from_label(s: Seq<char>) -> Option<TaskPriority> {
    if s == "low"@ {
        Some(TaskPriority::Low)
    } else if s == "medium"@ {
        Some(TaskPriority::Medium)
    } else if s == "high"@ {
        Some(TaskPriority::High)
    } else if s == "urgent"@ {
        Some(TaskPriority::Urgent)
    } else {
        None
    }
}

/// Reads a stored priority name.
pub fn parse_priority(s: &str) -> (r: Option<TaskPriority>)
    ensures
        r == priority_from_label(s@),
{
    if crate::text::same_text(s, "low") {
        Some(TaskPriority::Low)
    } else if crate::text::same_text(s, "medium") {
        Some(TaskPriority::Medium)
    } else if crate::text::same_text(s, "high") {
        Some(TaskPriority::High)
    } else if crate::text::same_text(s, "urgent") {
        Some(TaskPriority::Urgent)
    } else {
        None
    }
}

/// Every status and priority reads back from the name it is stored under.
pub proof fn lemma_task_labels_round_trip(s: TaskStatus, p: TaskPriority)
    ensures
        task_status_from_label(task_status_label(s)) == Some(s),
        priority_from_label(priority_label(p)) == Some(p),
{
    reveal_strlit("backlog");
    reveal_strlit("todo");
    reveal_strlit("in_progress");
    reveal_strlit("done");
    reveal_strlit("low");
    reveal_strlit("medium");
    reveal_strlit("high");
    reveal_strlit("urgent");
    assert("backlog"@[0] != "todo"@[0]);
    assert("backlog"@[0] != "in_progress"@[0]);
    assert("backlog"@[0] != "done"@[0]);
    assert("todo"@[0] != "in_progress"@[0]);
    assert("todo"@[0] != "done"@[0]);
    assert("in_progress"@[0] != "done"@[0]);
    assert("low"@[0] != "medium"@[0]);
    assert("low"@[0] != "high"@[0]);
    assert("low"@[0] != "urgent"@[0]);
    assert("medium"@[0] != "high"@[0]);
    assert("medium"@[0] != "urgent"@[0]);
    assert("high"@[0] != "urgent"@[0]);
}

} // verus!

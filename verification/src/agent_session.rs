use vstd::prelude::*;

use crate::error::AppError;
use crate::ids::{format_uuid, uuid_text};

verus! {

/// Lifecycle state of an agent session.
#[derive(Debug, Clone, Copy, PartialEq, Eq, Structural)]
pub enum AgentSessionStatus {
    Pending,
    Running,
    Paused,
    Completed,
    Failed,
    Cancelled,
}

/// The coding agent that a session drives.
#[derive(Debug, Clone, Copy, PartialEq, Eq, Structural)]
pub enum AgentType {
    ClaudeCode,
    GeminiCli,
}

/// An agent session as the service layer sees it. Identifiers are the
/// 128-bit values of UUIDs; instants are milliseconds since the Unix epoch.
#[derive(Debug, Clone)]
pub struct AgentSession {
    pub id: u128,
    pub task_id: u128,
    pub agent_type: AgentType,
    pub status: AgentSessionStatus,
    pub prompt: Option<String>,
    pub worktree_name: Option<String>,
    pub started_at: Option<i64>,
    pub finished_at: Option<i64>,
    pub created_at: i64,
    pub updated_at: i64,
}

/// Request to start a new agent session.
#[derive(Debug, Clone, Copy)]
pub struct CreateAgentSessionRequest {
    pub agent_type: AgentType,
}

/// Request to move a session to another status.
#[derive(Debug, Clone, Copy)]
pub struct UpdateAgentSessionRequest {
    pub status: AgentSessionStatus,
}

/// Recovered session info for logging and worktree cleanup.
#[derive(Debug, Clone)]
pub struct RecoveredSession {
    pub id: String,
    pub task_id: String,
    pub worktree_name: Option<String>,
}

/// Sessions that have ended: completed, failed or cancelled.
pub open spec fn is_terminal(s: AgentSessionStatus) -> bool {
    s == AgentSessionStatus::Completed || s == AgentSessionStatus::Failed
        || s == AgentSessionStatus::Cancelled
}

/// Sessions that still hold their task: pending, running or paused.
pub open spec fn is_active(s: AgentSessionStatus) -> bool {
    s == AgentSessionStatus::Pending || s == AgentSessionStatus::Running
        || s == AgentSessionStatus::Paused
}

/// The transitions that the session lifecycle permits.
pub open spec fn transition_allowed(from: AgentSessionStatus, to: AgentSessionStatus) -> bool {
    match (from, to) {
        (AgentSessionStatus::Pending, AgentSessionStatus::Running) => true,
        (AgentSessionStatus::Pending, AgentSessionStatus::Cancelled) => true,
        (AgentSessionStatus::Running, AgentSessionStatus::Completed) => true,
        (AgentSessionStatus::Running, AgentSessionStatus::Failed) => true,
        (AgentSessionStatus::Running, AgentSessionStatus::Cancelled) => true,
        (AgentSessionStatus::Running, AgentSessionStatus::Paused) => true,
        (AgentSessionStatus::Paused, AgentSessionStatus::Running) => true,
        (AgentSessionStatus::Paused, AgentSessionStatus::Cancelled) => true,
        (AgentSessionStatus::Paused, AgentSessionStatus::Completed) => true,
        (AgentSessionStatus::Paused, AgentSessionStatus::Failed) => true,
        _ => false,
    }
}

/// The name under which a status is stored and serialized.
pub open spec fn status_label(s: AgentSessionStatus) -> Seq<char> {
    match s {
        AgentSessionStatus::Pending => "pending"@,
        AgentSessionStatus::Running => "running"@,
        AgentSessionStatus::Paused => "paused"@,
        AgentSessionStatus::Completed => "completed"@,
        AgentSessionStatus::Failed => "failed"@,
        AgentSessionStatus::Cancelled => "cancelled"@,
    }
}

/// The message of a refused transition.
pub open spec fn transition_error_text(from: AgentSessionStatus, to: AgentSessionStatus) -> Seq<char> {
    "invalid status transition from "@ + status_label(from) + " to "@ + status_label(to)
}

/// The name under which a status is stored and serialized.
pub fn status_name(s: AgentSessionStatus) -> (r: &'static str)
    ensures
        r@ == status_label(s),
{
    match s {
        AgentSessionStatus::Pending => "pending",
        AgentSessionStatus::Running => "running",
        AgentSessionStatus::Paused => "paused",
        AgentSessionStatus::Completed => "completed",
        AgentSessionStatus::Failed => "failed",
        AgentSessionStatus::Cancelled => "cancelled",
    }
}

/// Whether a session in this status has ended.
pub fn status_is_terminal(s: AgentSessionStatus) -> (r: bool)
    ensures
        r == is_terminal(s),
{
    matches!(s, AgentSessionStatus::Completed | AgentSessionStatus::Failed | AgentSessionStatus::Cancelled)
}

/// Whether a session in this status still holds its task.
pub fn status_is_active(s: AgentSessionStatus) -> (r: bool)
    ensures
        r == is_active(s),
{
    matches!(s, AgentSessionStatus::Pending | AgentSessionStatus::Running | AgentSessionStatus::Paused)
}

/// Checks that a session may move from `from` to `to`; a refused transition
/// is a validation error naming both statuses.
pub fn validate_status_transition(from: &AgentSessionStatus, to: &AgentSessionStatus) -> (r: Result<(), AppError>)
    ensures
        r is Ok <==> transition_allowed(*from, *to),
        r is Err ==> r->Err_0 is Validation && r->Err_0.text() == transition_error_text(*from, *to),
{
    let allowed = match (from, to) {
        (AgentSessionStatus::Pending, AgentSessionStatus::Running) => true,
        (AgentSessionStatus::Pending, AgentSessionStatus::Cancelled) => true,
        (AgentSessionStatus::Running, AgentSessionStatus::Completed) => true,
        (AgentSessionStatus::Running, AgentSessionStatus::Failed) => true,
        (AgentSessionStatus::Running, AgentSessionStatus::Cancelled) => true,
        (AgentSessionStatus::Running, AgentSessionStatus::Paused) => true,
        (AgentSessionStatus::Paused, AgentSessionStatus::Running) => true,
        (AgentSessionStatus::Paused, AgentSessionStatus::Cancelled) => true,
        (AgentSessionStatus::Paused, AgentSessionStatus::Completed) => true,
        (AgentSessionStatus::Paused, AgentSessionStatus::Failed) => true,
        _ => false,
    };
    if !allowed {
        let msg = String::from_str("invalid status transition from ").concat(status_name(*from)).concat(
            " to ",
        ).concat(status_name(*to));
        return Err(AppError::Validation(msg));
    }
    Ok(())
}

/// The text of an optional string.
pub open spec fn opt_text(o: Option<String>) -> Option<Seq<char>> {
    match o {
        Some(s) => Some(s@),
        None => None,
    }
}

/// Copies an optional string.
pub fn clone_opt_string(o: &Option<String>) -> (r: Option<String>)
    ensures
        r == *o,
{
    match o {
        Some(s) => Some(s.clone()),
        None => None,
    }
}

/// A freshly created session: pending, with no prompt, worktree or timestamps
/// besides its creation instant.
pub open spec fn pending_session(id: u128, task_id: u128, agent_type: AgentType, now: i64) -> AgentSession {
    AgentSession {
        id,
        task_id,
        agent_type,
        status: AgentSessionStatus::Pending,
        prompt: None,
        worktree_name: None,
        started_at: None,
        finished_at: None,
        created_at: now,
        updated_at: now,
    }
}

/// The session after a permitted move to `to` at instant `now`: the first move
/// to running stamps `started_at`, a move to an ending status keeps or sets
/// `finished_at`, any other move clears it.
pub open spec fn updated_session(e: AgentSession, to: AgentSessionStatus, now: i64) -> AgentSession {
    AgentSession {
        id: e.id,
        task_id: e.task_id,
        agent_type: e.agent_type,
        status: to,
        prompt: e.prompt,
        worktree_name: e.worktree_name,
        started_at: if to == AgentSessionStatus::Running && e.started_at is None {
            Some(now)
        } else {
            e.started_at
        },
        finished_at: if is_terminal(to) {
            if e.finished_at is Some {
                e.finished_at
            } else {
                Some(now)
            }
        } else {
            None
        },
        created_at: e.created_at,
        updated_at: now,
    }
}

/// Builds the record of a new session for `task_id`.
pub fn new_pending_session(id: u128, task_id: u128, req: &CreateAgentSessionRequest, now: i64) -> (s: AgentSession)
    ensures
        s == pending_session(id, task_id, req.agent_type, now),
{
    AgentSession {
        id,
        task_id,
        agent_type: req.agent_type,
        status: AgentSessionStatus::Pending,
        prompt: None,
        worktree_name: None,
        started_at: None,
        finished_at: None,
        created_at: now,
        updated_at: now,
    }
}

/// Applies a status update to a stored session at instant `now`: refuses a
/// transition that the lifecycle does not permit, and otherwise gives the
/// session as it is to be stored.
pub fn apply_status_update(existing: AgentSession, req: &UpdateAgentSessionRequest, now: i64) -> (r: Result<AgentSession, AppError>)
    ensures
        r is Ok <==> transition_allowed(existing.status, req.status),
        r is Ok ==> r->Ok_0 == updated_session(existing, req.status, now),
        r is Ok ==> r->Ok_0.status == req.status && r->Ok_0.updated_at == now,
        r is Ok && req.status != AgentSessionStatus::Running ==> r->Ok_0.started_at == existing.started_at,
        r is Ok && req.status == AgentSessionStatus::Running ==> r->Ok_0.started_at
            == (if existing.started_at is Some { existing.started_at } else { Some(now) }),
        r is Ok && (req.status == AgentSessionStatus::Completed || req.status == AgentSessionStatus::Failed
            || req.status == AgentSessionStatus::Cancelled) ==> r->Ok_0.finished_at
            == Some(if existing.finished_at is Some { existing.finished_at->0 } else { now }),
        r is Ok && (req.status == AgentSessionStatus::Running || req.status == AgentSessionStatus::Paused)
            ==> r->Ok_0.finished_at is None,
        r is Err ==> r->Err_0 is Validation && r->Err_0.text() == transition_error_text(existing.status, req.status),
{
    match validate_status_transition(&existing.status, &req.status) {
        Err(e) => { return Err(e); },
        Ok(()) => {},
    }
    let to = req.status;
    let started_at = if to == AgentSessionStatus::Running && existing.started_at.is_none() {
        Some(now)
    } else {
        existing.started_at
    };
    let finished_at = if status_is_terminal(to) {
        match existing.finished_at {
            Some(f) => Some(f),
            None => Some(now),
        }
    } else {
        None
    };
    Ok(AgentSession {
        id: existing.id,
        task_id: existing.task_id,
        agent_type: existing.agent_type,
        status: to,
        prompt: existing.prompt,
        worktree_name: existing.worktree_name,
        started_at,
        finished_at,
        created_at: existing.created_at,
        updated_at: now,
    })
}

/// Whether any session of `task_id` in `sessions` is still active.
pub open spec fn has_active_session(sessions: Seq<AgentSession>, task_id: u128) -> bool {
    exists|i: int| 0 <= i < sessions.len() && #[trigger] sessions[i].task_id == task_id && is_active(sessions[i].status)
}

/// The message of a refused start.
pub open spec fn active_conflict_text(task_id: u128) -> Seq<char> {
    "task "@ + uuid_text(task_id) + " already has an active agent session"@
}

/// Checks that no session of `task_id` among `sessions` is pending, running
/// or paused; otherwise the start of another one is a conflict.
pub fn check_no_active_session(sessions: &Vec<AgentSession>, task_id: u128) -> (r: Result<(), AppError>)
    ensures
        r is Ok <==> !has_active_session(sessions@, task_id),
        r is Err ==> r->Err_0 is Conflict && r->Err_0.text() == active_conflict_text(task_id),
{
    let mut i: usize = 0;
    while i < sessions.len()
        invariant
            0 <= i <= sessions@.len(),
            forall|j: int| 0 <= j < i ==> !(#[trigger] sessions@[j].task_id == task_id && is_active(sessions@[j].status)),
        decreases sessions@.len() - i,
    {
        if sessions[i].task_id == task_id && status_is_active(sessions[i].status) {
            let msg = String::from_str("task ").concat(format_uuid(task_id).as_str()).concat(
                " already has an active agent session",
            );
            return Err(AppError::Conflict(msg));
        }
        i = i + 1;
    }
    Ok(())
}

/// A session after start-up recovery at instant `now`: an active session is
/// marked failed and finished; any other is left as it is.
pub open spec fn recover_one(s: AgentSession, now: i64) -> AgentSession {
    if is_active(s.status) {
        AgentSession { status: AgentSessionStatus::Failed, finished_at: Some(now), updated_at: now, ..s }
    } else {
        s
    }
}

/// The stored sessions after start-up recovery.
pub open spec fn recovered_table(sessions: Seq<AgentSession>, now: i64) -> Seq<AgentSession> {
    sessions.map_values(|s: AgentSession| recover_one(s, now))
}

/// What recovery reports of each session that it marks failed, in table order:
/// the identifier text, the task identifier text and the worktree name.
pub open spec fn recovery_report(sessions: Seq<AgentSession>) -> Seq<(Seq<char>, Seq<char>, Option<Seq<char>>)>
    decreases sessions.len(),
{
    if sessions.len() == 0 {
        Seq::empty()
    } else {
        let rest = recovery_report(sessions.drop_last());
        let s = sessions.last();
        if is_active(s.status) {
            rest.push((uuid_text(s.id), uuid_text(s.task_id), opt_text(s.worktree_name)))
        } else {
            rest
        }
    }
}

/// The view of a recovery report entry.
pub open spec fn recovered_view(r: RecoveredSession) -> (Seq<char>, Seq<char>, Option<Seq<char>>) {
    (r.id@, r.task_id@, opt_text(r.worktree_name))
}

/// Recovers orphaned sessions at start-up: every session left pending, running
/// or paused is marked failed and finished at `now`; sessions that had ended
/// are not touched. Reports the recovered sessions in table order.
pub fn recover_orphaned_sessions(sessions: &mut Vec<AgentSession>, now: i64) -> (res: Vec<RecoveredSession>)
    ensures
        final(sessions)@ == recovered_table(old(sessions)@, now),
        res@.map_values(|r: RecoveredSession| recovered_view(r)) == recovery_report(old(sessions)@),
{
    let ghost orig = sessions@;
    let mut res: Vec<RecoveredSession> = Vec::new();
    let mut i: usize = 0;
    while i < sessions.len()
        invariant
            orig.len() == sessions@.len(),
            0 <= i <= orig.len(),
            forall|j: int| 0 <= j < i ==> sessions@[j] == recover_one(#[trigger] orig[j], now),
            forall|j: int| i <= j < orig.len() ==> sessions@[j] == #[trigger] orig[j],
            res@.map_values(|r: RecoveredSession| recovered_view(r)) == recovery_report(orig.take(i as int)),
        decreases orig.len() - i,
    {
        proof {
            assert(orig.take(i + 1).drop_last() =~= orig.take(i as int));
            assert(orig.take(i + 1).last() == orig[i as int]);
        }
        if status_is_active(sessions[i].status) {
            let cur = &sessions[i];
            let updated = AgentSession {
                id: cur.id,
                task_id: cur.task_id,
                agent_type: cur.agent_type,
                status: AgentSessionStatus::Failed,
                prompt: clone_opt_string(&cur.prompt),
                worktree_name: clone_opt_string(&cur.worktree_name),
                started_at: cur.started_at,
                finished_at: Some(now),
                created_at: cur.created_at,
                updated_at: now,
            };
            let rec = RecoveredSession {
                id: format_uuid(cur.id),
                task_id: format_uuid(cur.task_id),
                worktree_name: clone_opt_string(&cur.worktree_name),
            };
            res.push(rec);
            sessions.set(i, updated);
            proof {
                assert(res@.map_values(|r: RecoveredSession| recovered_view(r)) =~= recovery_report(orig.take(i as int)).push(
                    (uuid_text(orig[i as int].id), uuid_text(orig[i as int].task_id), opt_text(orig[i as int].worktree_name))));
            }
        } else {
            proof {
                assert(res@.map_values(|r: RecoveredSession| recovered_view(r)) =~= recovery_report(orig.take(i + 1)));
            }
        }
        i = i + 1;
    }
    proof {
        assert(orig.take(orig.len() as int) =~= orig);
        assert(sessions@ =~= recovered_table(orig, now));
    }
    res
}

/// An ended session never changes status again: no transition leaves a
/// completed, failed or cancelled session, and every permitted transition
/// starts from an active one.
pub proof fn lemma_ended_sessions_are_final(from: AgentSessionStatus, to: AgentSessionStatus)
    ensures
        is_terminal(from) ==> !transition_allowed(from, to),
        transition_allowed(from, to) ==> is_active(from),
{
}

/// A permitted status update records its instants consistently: the session
/// carries `finished_at` exactly when it has ended, a start instant once set is
/// never changed, a running session has one, and the identity and creation
/// instant of the session are kept.
pub proof fn lemma_update_stamps(e: AgentSession, to: AgentSessionStatus, now: i64)
    requires
        transition_allowed(e.status, to),
    ensures
        ({
            let u = updated_session(e, to, now);
            &&& u.status == to
            &&& (is_terminal(to) <==> u.finished_at is Some)
            &&& (e.started_at is Some ==> u.started_at == e.started_at)
            &&& (to == AgentSessionStatus::Running ==> u.started_at is Some)
            &&& (to != AgentSessionStatus::Running ==> u.started_at == e.started_at)
            &&& (to == AgentSessionStatus::Running && e.started_at is None ==> u.started_at == Some(now))
            &&& ((to == AgentSessionStatus::Completed || to == AgentSessionStatus::Failed || to == AgentSessionStatus::Cancelled)
                ==> u.finished_at == Some(if e.finished_at is Some { e.finished_at->0 } else { now }))
            &&& ((to == AgentSessionStatus::Pending || to == AgentSessionStatus::Running || to == AgentSessionStatus::Paused)
                ==> u.finished_at is None)
            &&& u.agent_type == e.agent_type && u.prompt == e.prompt && u.worktree_name == e.worktree_name
            &&& u.id == e.id && u.task_id == e.task_id && u.created_at == e.created_at
            &&& u.updated_at == now
        }),
{
}

/// Start-up recovery is idempotent and complete: afterwards no session is
/// active, running it again changes nothing and reports nothing, and sessions
/// that had ended are untouched.
pub proof fn lemma_recovery_idempotent(sessions: Seq<AgentSession>, now: i64, later: i64)
    ensures
        recovered_table(recovered_table(sessions, now), later) == recovered_table(sessions, now),
        recovery_report(recovered_table(sessions, now)).len() == 0,
        forall|i: int| 0 <= i < sessions.len() ==> !is_active(#[trigger] recovered_table(sessions, now)[i].status),
        forall|i: int| 0 <= i < sessions.len() && !is_active(sessions[i].status) ==> #[trigger] recovered_table(sessions, now)[i] == sessions[i],
{
    let t = recovered_table(sessions, now);
    assert(recovered_table(t, later) =~= t);
    lemma_report_empty_when_none_active(t);
}

proof fn lemma_report_empty_when_none_active(t: Seq<AgentSession>)
    requires
        forall|i: int| 0 <= i < t.len() ==> !is_active(#[trigger] t[i].status),
    ensures
        recovery_report(t).len() == 0,
    decreases t.len(),
{
    if t.len() > 0 {
        let d = t.drop_last();
        assert forall|i: int| 0 <= i < d.len() implies !is_active(#[trigger] d[i].status) by {
            assert(d[i] == t[i]);
        }
        lemma_report_empty_when_none_active(d);
        assert(!is_active(t[t.len() - 1].status));
    }
}

/// No task has two active sessions.
pub open spec fn at_most_one_active(sessions: Seq<AgentSession>) -> bool {
    forall|i: int, j: int|
        0 <= i < sessions.len() && 0 <= j < sessions.len() && i != j && #[trigger] sessions[i].task_id == #[trigger] sessions[j].task_id
            ==> !(is_active(sessions[i].status) && is_active(sessions[j].status))
}

/// Starting a session only after `check_no_active_session` succeeded keeps at
/// most one active session per task.
pub proof fn lemma_single_active_session(sessions: Seq<AgentSession>, id: u128, task_id: u128, agent_type: AgentType, now: i64)
    requires
        at_most_one_active(sessions),
        !has_active_session(sessions, task_id),
    ensures
        at_most_one_active(sessions.push(pending_session(id, task_id, agent_type, now))),
{
    let n = sessions.push(pending_session(id, task_id, agent_type, now));
    assert forall|i: int, j: int|
        0 <= i < n.len() && 0 <= j < n.len() && i != j && #[trigger] n[i].task_id == #[trigger] n[j].task_id
            implies !(is_active(n[i].status) && is_active(n[j].status)) by {
        if i == sessions.len() {
            assert(n[j] == sessions[j]);
        } else if j == sessions.len() {
            assert(n[i] == sessions[i]);
        } else {
            assert(n[i] == sessions[i] && n[j] == sessions[j]);
        }
    }
}

/// Message of a missing session in a lookup.
pub open spec fn session_not_found_text(id: u128) -> Seq<char> {
    "agent session "@ + uuid_text(id) + " not found"@
}

/// The result of a lookup of session `id` of a task: the session, or not found.
pub fn found_agent_session(id: u128, found: Option<AgentSession>) -> (r: Result<AgentSession, AppError>)
    ensures
        found is Some ==> r == Ok::<AgentSession, AppError>(found->0),
        found is None ==> r is Err && r->Err_0 is NotFound && r->Err_0.text() == session_not_found_text(id),
{
    match found {
        Some(s) => Ok(s),
        None => Err(AppError::NotFound(String::from_str("agent session ").concat(format_uuid(id).as_str()).concat(" not found"))),
    }
}

/// Message of a missing session in an update.
pub open spec fn session_update_missing_text(id: u128) -> Seq<char> {
    "Agent session "@ + uuid_text(id) + " not found"@
}

/// Checks that saving a prompt or worktree name changed the session's row.
pub fn check_session_updated(id: u128, rows: u64) -> (r: Result<(), AppError>)
    ensures
        r is Ok <==> rows > 0,
        r is Err ==> r->Err_0 is NotFound && r->Err_0.text() == session_update_missing_text(id),
{
    if rows == 0 {
        return Err(AppError::NotFound(String::from_str("Agent session ").concat(format_uuid(id).as_str()).concat(" not found")));
    }
    Ok(())
}

/// Sessions whose worktree can be cleaned up: ended ones that still name a worktree.
pub open spec fn worktree_cleanable(s: AgentSession) -> bool {
    s.worktree_name is Some && is_terminal(s.status)
}

/// Whether a session's worktree can be cleaned up: it has ended and still
/// names a worktree; running or pending sessions never qualify.
pub fn is_worktree_cleanable(s: &AgentSession) -> (r: bool)
    ensures
        r == worktree_cleanable(*s),
{
    s.worktree_name.is_some() && status_is_terminal(s.status)
}

/// The status that a stored name denotes.
pub open spec fn status_from_label(s: Seq<char>) -> Option<AgentSessionStatus> {
    if s == "pending"@ {
        Some(AgentSessionStatus::Pending)
    } else if s == "running"@ {
        Some(AgentSessionStatus::Running)
    } else if s == "paused"@ {
        Some(AgentSessionStatus::Paused)
    } else if s == "completed"@ {
        Some(AgentSessionStatus::Completed)
    } else if s == "failed"@ {
        Some(AgentSessionStatus::Failed)
    } else if s == "cancelled"@ {
        Some(AgentSessionStatus::Cancelled)
    } else {
        None
    }
}

/// Reads a stored status name.
pub fn parse_session_status(s: &str) -> (r: Option<AgentSessionStatus>)
    ensures
        r == status_from_label(s@),
{
    if crate::text::same_text(s, "pending") {
        Some(AgentSessionStatus::Pending)
    } else if crate::text::same_text(s, "running") {
        Some(AgentSessionStatus::Running)
    } else if crate::text::same_text(s, "paused") {
        Some(AgentSessionStatus::Paused)
    } else if crate::text::same_text(s, "completed") {
        Some(AgentSessionStatus::Completed)
    } else if crate::text::same_text(s, "failed") {
        Some(AgentSessionStatus::Failed)
    } else if crate::text::same_text(s, "cancelled") {
        Some(AgentSessionStatus::Cancelled)
    } else {
        None
    }
}

/// The name under which an agent type is stored and serialized.
pub open spec fn agent_type_label(t: AgentType) -> Seq<char> {
    match t {
        AgentType::ClaudeCode => "claude_code"@,
        AgentType::GeminiCli => "gemini_cli"@,
    }
}

/// The name under which an agent type is stored and serialized.
pub fn agent_type_name(t: AgentType) -> (r: &'static str)
    ensures
        r@ == agent_type_label(t),
{
    match t {
        AgentType::ClaudeCode => "claude_code",
        AgentType::GeminiCli => "gemini_cli",
    }
}

/// The agent type that a stored name denotes.
pub open spec fn agent_type_from_label(s: Seq<char>) -> Option<AgentType> {
    if s == "claude_code"@ {
        Some(AgentType::ClaudeCode)
    } else if s == "gemini_cli"@ {
        Some(AgentType::GeminiCli)
    } else {
        None
    }
}

/// Reads a stored agent type name.
pub fn parse_agent_type(s: &str) -> (r: Option<AgentType>)
    ensures
        r == agent_type_from_label(s@),
{
    if crate::text::same_text(s, "claude_code") {
        Some(AgentType::ClaudeCode)
    } else if crate::text::same_text(s, "gemini_cli") {
        Some(AgentType::GeminiCli)
    } else {
        None
    }
}

/// Every status reads back from the name it is stored under.
pub proof fn lemma_status_round_trip(s: AgentSessionStatus)
    ensures
        status_from_label(status_label(s)) == Some(s),
{
    reveal_strlit("pending");
    reveal_strlit("running");
    reveal_strlit("paused");
    reveal_strlit("completed");
    reveal_strlit("failed");
    reveal_strlit("cancelled");
    assert("pending"@[0] != "running"@[0]);
    assert("pending"@[1] != "paused"@[1]);
    assert("pending"@[0] != "completed"@[0]);
    assert("pending"@[0] != "failed"@[0]);
    assert("pending"@[0] != "cancelled"@[0]);
    assert("running"@[0] != "paused"@[0]);
    assert("running"@[0] != "completed"@[0]);
    assert("running"@[0] != "failed"@[0]);
    assert("running"@[0] != "cancelled"@[0]);
    assert("paused"@[0] != "completed"@[0]);
    assert("paused"@[0] != "failed"@[0]);
    assert("paused"@[0] != "cancelled"@[0]);
    assert("completed"@[0] != "failed"@[0]);
    assert("completed"@[1] != "cancelled"@[1]);
    assert("failed"@[0] != "cancelled"@[0]);
}

/// Every agent type reads back from the name it is stored under.
pub proof fn lemma_agent_type_round_trip(t: AgentType)
    ensures
        agent_type_from_label(agent_type_label(t)) == Some(t),
{
    reveal_strlit("claude_code");
    reveal_strlit("gemini_cli");
    assert("claude_code"@[0] != "gemini_cli"@[0]);
}

} // verus!

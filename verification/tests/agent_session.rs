use gantry_backend::agent_session::{
    apply_status_update, check_no_active_session, new_pending_session, recover_orphaned_sessions, status_name,
    validate_status_transition, AgentSession, AgentSessionStatus, AgentType, CreateAgentSessionRequest,
    UpdateAgentSessionRequest,
};
use gantry_backend::error::AppError;

const PENDING: AgentSessionStatus = AgentSessionStatus::Pending;
const RUNNING: AgentSessionStatus = AgentSessionStatus::Running;
const PAUSED: AgentSessionStatus = AgentSessionStatus::Paused;
const COMPLETED: AgentSessionStatus = AgentSessionStatus::Completed;
const FAILED: AgentSessionStatus = AgentSessionStatus::Failed;
const CANCELLED: AgentSessionStatus = AgentSessionStatus::Cancelled;
const ALL: [AgentSessionStatus; 6] = [PENDING, RUNNING, PAUSED, COMPLETED, FAILED, CANCELLED];

fn session(task_id: u128, status: AgentSessionStatus) -> AgentSession {
    let mut s = new_pending_session(task_id * 10, task_id, &CreateAgentSessionRequest { agent_type: AgentType::ClaudeCode }, 100);
    s.status = status;
    s
}

fn update(s: AgentSession, to: AgentSessionStatus, now: i64) -> Result<AgentSession, AppError> {
    apply_status_update(s, &UpdateAgentSessionRequest { status: to }, now)
}

#[test]
fn new_session_is_pending_without_timestamps() {
    let s = new_pending_session(1, 2, &CreateAgentSessionRequest { agent_type: AgentType::GeminiCli }, 50);
    assert_eq!(s.status, PENDING);
    assert_eq!(s.agent_type, AgentType::GeminiCli);
    assert!(s.started_at.is_none());
    assert!(s.finished_at.is_none());
    assert_eq!((s.created_at, s.updated_at), (50, 50));
}

#[test]
fn permitted_transitions_are_exactly_the_lifecycle() {
    let allowed = [
        (PENDING, RUNNING),
        (PENDING, CANCELLED),
        (RUNNING, COMPLETED),
        (RUNNING, FAILED),
        (RUNNING, CANCELLED),
        (RUNNING, PAUSED),
        (PAUSED, RUNNING),
        (PAUSED, CANCELLED),
        (PAUSED, COMPLETED),
        (PAUSED, FAILED),
    ];
    for from in ALL {
        for to in ALL {
            let ok = validate_status_transition(&from, &to).is_ok();
            assert_eq!(ok, allowed.contains(&(from, to)), "{from:?} -> {to:?}");
        }
    }
}

#[test]
fn refused_transition_names_both_states() {
    match validate_status_transition(&COMPLETED, &RUNNING) {
        Err(AppError::Validation(m)) => assert_eq!(m, "invalid status transition from completed to running"),
        other => panic!("unexpected {other:?}"),
    }
    assert!(matches!(validate_status_transition(&PENDING, &COMPLETED), Err(AppError::Validation(_))));
    assert!(matches!(validate_status_transition(&PENDING, &PAUSED), Err(AppError::Validation(_))));
    assert!(matches!(validate_status_transition(&COMPLETED, &PAUSED), Err(AppError::Validation(_))));
}

#[test]
fn ended_sessions_never_move() {
    for from in [COMPLETED, FAILED, CANCELLED] {
        for to in ALL {
            assert!(validate_status_transition(&from, &to).is_err());
        }
    }
}

#[test]
fn running_stamps_start_and_ending_stamps_finish() {
    let s = session(1, PENDING);
    let running = update(s, RUNNING, 200).unwrap();
    assert_eq!(running.status, RUNNING);
    assert_eq!(running.started_at, Some(200));
    assert!(running.finished_at.is_none());

    let paused = update(running, PAUSED, 300).unwrap();
    assert_eq!(paused.started_at, Some(200));
    assert!(paused.finished_at.is_none());

    let resumed = update(paused, RUNNING, 400).unwrap();
    assert_eq!(resumed.started_at, Some(200), "start instant is kept");
    assert!(resumed.finished_at.is_none());

    let done = update(resumed, COMPLETED, 500).unwrap();
    assert_eq!(done.finished_at, Some(500));
    assert_eq!(done.updated_at, 500);
    assert_eq!(done.created_at, 100);
}

#[test]
fn cancelled_and_failed_set_finished_at() {
    let paused = update(update(session(1, PENDING), RUNNING, 1).unwrap(), PAUSED, 2).unwrap();
    let cancelled = update(paused, CANCELLED, 3).unwrap();
    assert_eq!(cancelled.status, CANCELLED);
    assert_eq!(cancelled.finished_at, Some(3));

    let failed = update(update(session(2, PENDING), RUNNING, 1).unwrap(), FAILED, 9).unwrap();
    assert_eq!(failed.finished_at, Some(9));
}

#[test]
fn active_session_blocks_a_new_one() {
    let task = uuid::Uuid::new_v4();
    let t = task.as_u128();
    let sessions = vec![session(t, COMPLETED), session(t + 1, RUNNING)];
    assert!(check_no_active_session(&sessions, t).is_ok());
    for st in [PENDING, RUNNING, PAUSED] {
        let sessions = vec![session(t, FAILED), session(t, st)];
        match check_no_active_session(&sessions, t) {
            Err(AppError::Conflict(m)) => assert_eq!(m, format!("task {task} already has an active agent session")),
            other => panic!("unexpected {other:?}"),
        }
    }
    let sessions = vec![session(t, CANCELLED), session(t, FAILED)];
    assert!(check_no_active_session(&sessions, t).is_ok());
}

#[test]
fn recovery_fails_active_sessions_and_is_idempotent() {
    let ids: Vec<uuid::Uuid> = (0..6).map(|_| uuid::Uuid::new_v4()).collect();
    let mut table: Vec<AgentSession> = ALL
        .iter()
        .zip(ids.iter())
        .map(|(st, id)| {
            let mut s = session(id.as_u128(), *st);
            s.id = id.as_u128();
            s
        })
        .collect();
    table[1].worktree_name = Some("wt-run".to_string());
    let recovered = recover_orphaned_sessions(&mut table, 777);
    assert_eq!(recovered.len(), 3);
    assert_eq!(recovered[0].id, ids[0].to_string());
    assert_eq!(recovered[1].task_id, ids[1].to_string());
    assert_eq!(recovered[1].worktree_name.as_deref(), Some("wt-run"));
    for s in &table {
        assert!(matches!(s.status, COMPLETED | FAILED | CANCELLED));
    }
    assert_eq!(table[0].status, FAILED);
    assert_eq!(table[0].finished_at, Some(777));
    assert_eq!(table[3].status, COMPLETED, "ended sessions are untouched");
    assert!(table[3].finished_at.is_none());

    let again = recover_orphaned_sessions(&mut table, 888);
    assert!(again.is_empty(), "second call should be no-op");
    assert_eq!(table[0].finished_at, Some(777));
}

#[test]
fn status_names_are_lowercase() {
    let names: Vec<&str> = ALL.iter().map(|s| status_name(*s)).collect();
    assert_eq!(names, ["pending", "running", "paused", "completed", "failed", "cancelled"]);
}

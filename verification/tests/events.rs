use gantry_backend::agent_session::{AgentSession, AgentSessionStatus, AgentType};
use gantry_backend::events::{
    admit_connection, project_receiver_accepts, socket_step, sse_filter_accepts, ws_envelope, SocketAction, SocketEvent,
    SseEvent,
};
use gantry_backend::github::SyncResult;
use gantry_backend::tasks::{Task, TaskPriority, TaskStatus};
use uuid::Uuid;

fn now() -> i64 {
    chrono::Utc::now().timestamp_millis()
}

fn create_test_task() -> Task {
    Task {
        id: Uuid::new_v4().as_u128(),
        project_id: Uuid::new_v4().as_u128(),
        title: "Test Task".to_string(),
        description: None,
        status: TaskStatus::Todo,
        priority: TaskPriority::Medium,
        parent_id: None,
        assigned_to: None,
        position: 0,
        created_at: now(),
        updated_at: now(),
    }
}

#[test]
fn test_task_created_event() {
    let task = create_test_task();
    let event = SseEvent::task_created(task.clone());

    assert_eq!(event.event_type(), "task_created");
    if let SseEvent::TaskCreated { task: t } = event {
        assert_eq!(t.id, task.id);
    } else {
        panic!("Expected TaskCreated event");
    }
}

#[test]
fn test_task_updated_event() {
    let task = create_test_task();
    let event = SseEvent::task_updated(task.clone());

    assert_eq!(event.event_type(), "task_updated");
}

#[test]
fn test_task_deleted_event() {
    let task_id = Uuid::new_v4().as_u128();
    let event = SseEvent::task_deleted(task_id);

    assert_eq!(event.event_type(), "task_deleted");
    if let SseEvent::TaskDeleted { task_id: id } = event {
        assert_eq!(id, task_id);
    } else {
        panic!("Expected TaskDeleted event");
    }
}

#[test]
fn test_agent_output_event() {
    let session_id = Uuid::new_v4().as_u128();
    let event = SseEvent::agent_output(session_id, "Hello from agent".to_string());

    assert_eq!(event.event_type(), "agent_output");
    if let SseEvent::AgentOutput { session_id: sid, text } = event {
        assert_eq!(sid, session_id);
        assert_eq!(text, "Hello from agent");
    } else {
        panic!("Expected AgentOutput event");
    }
}

#[test]
fn test_github_sync_completed_event() {
    let result = SyncResult { project_id: Uuid::new_v4().as_u128(), pushed: 3, pulled: 2 };
    let event = SseEvent::github_sync_completed(result);
    assert_eq!(event.event_type(), "github_sync_completed");
    if let SseEvent::GitHubSyncCompleted { result: r } = event {
        assert_eq!(r.pushed, 3);
        assert_eq!(r.pulled, 2);
    } else {
        panic!("Expected GitHubSyncCompleted event");
    }
}

#[test]
fn test_github_sync_failed_event() {
    let project_id = Uuid::new_v4().as_u128();
    let event = SseEvent::github_sync_failed(project_id, "API error".to_string());
    assert_eq!(event.event_type(), "github_sync_failed");
    if let SseEvent::GitHubSyncFailed { project_id: pid, error } = event {
        assert_eq!(pid, project_id);
        assert_eq!(error, "API error");
    } else {
        panic!("Expected GitHubSyncFailed event");
    }
}

#[test]
fn test_agent_session_status_changed_event() {
    let session = AgentSession {
        id: Uuid::new_v4().as_u128(),
        task_id: Uuid::new_v4().as_u128(),
        agent_type: AgentType::ClaudeCode,
        status: AgentSessionStatus::Running,
        prompt: None,
        worktree_name: None,
        started_at: Some(now()),
        finished_at: None,
        created_at: now(),
        updated_at: now(),
    };
    let event = SseEvent::agent_session_status_changed(session.clone());

    assert_eq!(event.event_type(), "agent_session_status_changed");
    if let SseEvent::AgentSessionStatusChanged { session: s } = event {
        assert_eq!(s.id, session.id);
        assert_eq!(s.status, AgentSessionStatus::Running);
    } else {
        panic!("Expected AgentSessionStatusChanged event");
    }
}

#[test]
fn project_subscribers_get_own_and_unattributed_events() {
    let task_a = create_test_task();
    let project_a = task_a.project_id;
    let task_b = create_test_task();
    assert!(project_receiver_accepts(&SseEvent::task_created(task_a.clone()), project_a));
    assert!(!project_receiver_accepts(&SseEvent::task_created(task_b), project_a));
    assert!(project_receiver_accepts(&SseEvent::task_deleted(7), project_a));
}

#[test]
fn filtered_sse_clients_get_only_their_project() {
    let task = create_test_task();
    let pid = task.project_id;
    let event = SseEvent::task_created(task);
    assert!(sse_filter_accepts(None, &event));
    assert!(sse_filter_accepts(Some(pid), &event));
    assert!(!sse_filter_accepts(Some(pid + 1), &event));
    assert!(!sse_filter_accepts(Some(pid), &SseEvent::task_deleted(1)));
    assert!(sse_filter_accepts(None, &SseEvent::task_deleted(1)));
}

#[test]
fn project_ids_of_events() {
    assert_eq!(SseEvent::project_message_deleted(1, 9).project_id(), Some(9));
    assert_eq!(SseEvent::comment_deleted(1, 2).project_id(), None);
    assert_eq!(SseEvent::preview_deleted(1).project_id(), None);
    assert_eq!(SseEvent::github_sync_failed(4, "x".to_string()).project_id(), Some(4));
}

#[test]
fn connections_are_admitted_below_the_limit() {
    assert!(admit_connection(0, 1));
    assert!(!admit_connection(1, 1));
    assert!(!admit_connection(0, 0));
}

#[test]
fn websocket_envelope_wraps_event_json() {
    let event = SseEvent::task_deleted(5);
    let framed = ws_envelope(&event, "{\"type\":\"TaskDeleted\"}");
    assert_eq!(framed, "{\"data\":{\"type\":\"TaskDeleted\"},\"event\":\"task_deleted\"}");
    let parsed: serde_json::Value = serde_json::from_str(&framed).unwrap();
    assert_eq!(parsed["event"], "task_deleted");
    assert_eq!(parsed["data"]["type"], "TaskDeleted");
}

#[test]
fn socket_steps_follow_the_connection() {
    assert!(matches!(
        socket_step(SocketEvent::Broadcast { frame: Some("{}".to_string()) }),
        SocketAction::Send { text } if text == "{}"
    ));
    assert!(matches!(socket_step(SocketEvent::Broadcast { frame: None }), SocketAction::Continue));
    assert!(matches!(socket_step(SocketEvent::Lagged { skipped: 7 }), SocketAction::ReportLag { skipped: 7 }));
    assert!(matches!(socket_step(SocketEvent::PingTick), SocketAction::SendPing));
    assert!(matches!(socket_step(SocketEvent::ClientMessage), SocketAction::Continue));
    assert!(matches!(socket_step(SocketEvent::Sent), SocketAction::Continue));
    for ev in [
        SocketEvent::ChannelClosed,
        SocketEvent::ClientClose,
        SocketEvent::ClientEnd,
        SocketEvent::ClientError,
        SocketEvent::SendFailed,
    ] {
        assert!(matches!(socket_step(ev), SocketAction::Stop));
    }
}

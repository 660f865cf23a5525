use gantry_backend::agent_session::{
    agent_type_name, parse_agent_type, parse_session_status, status_name, AgentSessionStatus, AgentType,
};
use gantry_backend::preview::{parse_preview_status, preview_status_name, PreviewStatus};
use gantry_backend::tasks::{parse_priority, parse_task_status, priority_name, task_status_name, TaskPriority, TaskStatus};

#[test]
fn task_statuses_and_priorities_round_trip() {
    for s in [TaskStatus::Backlog, TaskStatus::Todo, TaskStatus::InProgress, TaskStatus::Done] {
        assert_eq!(parse_task_status(task_status_name(s)), Some(s));
    }
    for p in [TaskPriority::Low, TaskPriority::Medium, TaskPriority::High, TaskPriority::Urgent] {
        assert_eq!(parse_priority(priority_name(p)), Some(p));
    }
    assert_eq!(task_status_name(TaskStatus::InProgress), "in_progress");
    assert_eq!(parse_task_status("In_Progress"), None);
    assert_eq!(parse_priority("critical"), None);
}

#[test]
fn preview_statuses_round_trip() {
    for s in [
        PreviewStatus::Pending,
        PreviewStatus::Building,
        PreviewStatus::Running,
        PreviewStatus::Stopped,
        PreviewStatus::Failed,
    ] {
        assert_eq!(parse_preview_status(preview_status_name(s)), Some(s));
    }
    assert_eq!(parse_preview_status("paused"), None);
}

#[test]
fn session_statuses_and_agent_types_round_trip() {
    for s in [
        AgentSessionStatus::Pending,
        AgentSessionStatus::Running,
        AgentSessionStatus::Paused,
        AgentSessionStatus::Completed,
        AgentSessionStatus::Failed,
        AgentSessionStatus::Cancelled,
    ] {
        assert_eq!(parse_session_status(status_name(s)), Some(s));
    }
    for t in [AgentType::ClaudeCode, AgentType::GeminiCli] {
        assert_eq!(parse_agent_type(agent_type_name(t)), Some(t));
    }
    assert_eq!(agent_type_name(AgentType::ClaudeCode), "claude_code");
    assert_eq!(parse_agent_type("codex"), None);
}

use gantry_backend::authz::MemberRole;
use gantry_backend::error::AppError;
use gantry_backend::github::PrState;
use gantry_backend::rows::{
    invitation_from_row, outputs_from_rows, parse_id, pr_from_row, task_from_row, AgentSessionOutputRow,
    InvitationRow, PrRow, TaskRow,
};
use gantry_backend::tasks::{TaskPriority, TaskStatus};
use uuid::Uuid;

#[test]
fn identifiers_parse_from_text() {
    let id = Uuid::new_v4();
    assert_eq!(parse_id(&id.to_string()).unwrap(), id.as_u128());
    let expected = Uuid::parse_str("not-a-uuid").unwrap_err().to_string();
    assert!(matches!(parse_id("not-a-uuid"), Err(AppError::Internal(m)) if m == expected));
    assert_eq!(parse_id(&id.simple().to_string()).unwrap(), id.as_u128());
}

#[test]
fn task_rows_convert() {
    let (id, pid, parent) = (Uuid::new_v4(), Uuid::new_v4(), Uuid::new_v4());
    let row = TaskRow {
        id: id.to_string(),
        project_id: pid.to_string(),
        title: "T".to_string(),
        description: None,
        status: "todo".to_string(),
        priority: "high".to_string(),
        parent_id: Some(parent.to_string()),
        assigned_to: None,
        position: 3,
        created_at: 1,
        updated_at: 2,
    };
    let t = task_from_row(row).unwrap();
    assert_eq!((t.id, t.project_id, t.parent_id), (id.as_u128(), pid.as_u128(), Some(parent.as_u128())));
    assert_eq!(t.assigned_to, None);
    assert_eq!((t.status, t.priority), (TaskStatus::Todo, TaskPriority::High));
    let bad = TaskRow {
        id: id.to_string(),
        project_id: pid.to_string(),
        title: "T".to_string(),
        description: None,
        status: "todo".to_string(),
        priority: "high".to_string(),
        parent_id: None,
        assigned_to: Some("zzz".to_string()),
        position: 3,
        created_at: 1,
        updated_at: 2,
    };
    assert!(matches!(task_from_row(bad), Err(AppError::Internal(_))));
}

#[test]
fn pr_rows_read_closed_or_open() {
    let mk = |state: &str| PrRow {
        id: Uuid::new_v4().to_string(),
        github_link_id: Uuid::new_v4().to_string(),
        task_id: Uuid::new_v4().to_string(),
        pr_number: 4,
        title: "t".to_string(),
        url: "u".to_string(),
        state: state.to_string(),
        is_merged: false,
        author: None,
        created_at: 0,
        updated_at: 0,
    };
    assert_eq!(pr_from_row(mk("closed")).unwrap().state, PrState::Closed);
    assert_eq!(pr_from_row(mk("open")).unwrap().state, PrState::Open);
    assert_eq!(pr_from_row(mk("merged")).unwrap().state, PrState::Open);
}

#[test]
fn invitation_rows_need_a_known_role() {
    let mk = |role: &str| InvitationRow {
        id: Uuid::new_v4().to_string(),
        project_id: Uuid::new_v4().to_string(),
        invited_by: Uuid::new_v4().to_string(),
        invited_by_name: "I".to_string(),
        project_name: "P".to_string(),
        role: role.to_string(),
        expires_at: 0,
        accepted_at: None,
        accepted_by: None,
        created_at: 0,
    };
    assert_eq!(invitation_from_row(mk("admin")).unwrap().role, MemberRole::Admin);
    assert!(matches!(
        invitation_from_row(mk("root")),
        Err(AppError::Internal(m)) if m == "unknown variant `root`, expected one of `owner`, `admin`, `member`"
    ));
}

#[test]
fn output_rows_convert_in_order() {
    let sid = Uuid::new_v4();
    let rows: Vec<AgentSessionOutputRow> = (0..3)
        .map(|i| AgentSessionOutputRow { id: i, session_id: sid.to_string(), sequence: i, content: format!("c{i}"), created_at: 0 })
        .collect();
    let outs = outputs_from_rows(&rows).unwrap();
    assert_eq!(outs.iter().map(|o| o.sequence).collect::<Vec<_>>(), vec![0, 1, 2]);
    assert_eq!(outs[2].content, "c2");
    assert_eq!(outs[0].session_id, sid.as_u128());
}

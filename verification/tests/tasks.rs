use gantry_backend::error::AppError;
use gantry_backend::tasks::{
    found_task, merge_task_update, new_task, task_status_name, validate_assigned_to, validate_parent_project,
    CreateTaskRequest, TaskPriority, TaskStatus, UpdateTaskRequest,
};
use uuid::Uuid;

fn create_req(project_id: u128) -> CreateTaskRequest {
    CreateTaskRequest {
        project_id,
        title: "Test Task".to_string(),
        description: Some("A test task".to_string()),
        status: None,
        priority: None,
        parent_id: None,
        assigned_to: None,
    }
}

fn empty_update() -> UpdateTaskRequest {
    UpdateTaskRequest { title: None, description: None, status: None, priority: None, parent_id: None, assigned_to: None, position: None }
}

#[test]
fn new_tasks_default_to_backlog_and_medium() {
    let t = new_task(1, &create_req(2), 33);
    assert_eq!(t.title, "Test Task");
    assert_eq!(t.description, Some("A test task".to_string()));
    assert_eq!(t.project_id, 2);
    assert!(matches!(t.status, TaskStatus::Backlog));
    assert!(matches!(t.priority, TaskPriority::Medium));
    assert_eq!(t.position, 0);
    assert_eq!((t.created_at, t.updated_at), (33, 33));
}

#[test]
fn new_tasks_keep_requested_status_and_priority() {
    let mut req = create_req(2);
    req.status = Some(TaskStatus::InProgress);
    req.priority = Some(TaskPriority::Urgent);
    let t = new_task(1, &req, 0);
    assert!(matches!(t.status, TaskStatus::InProgress));
    assert!(matches!(t.priority, TaskPriority::Urgent));
}

#[test]
fn updates_replace_given_fields_only() {
    let t = new_task(1, &create_req(2), 10);
    let mut req = empty_update();
    req.title = Some("Updated".to_string());
    req.position = Some(5);
    let (u, changed) = merge_task_update(t.clone(), &req, 20);
    assert_eq!(u.title, "Updated");
    assert_eq!(u.position, 5);
    assert_eq!(u.description, t.description);
    assert!(!changed);
    assert_eq!((u.created_at, u.updated_at), (10, 20));

    let mut req = empty_update();
    req.status = Some(TaskStatus::Done);
    let (u, changed) = merge_task_update(t.clone(), &req, 21);
    assert!(matches!(u.status, TaskStatus::Done));
    assert!(changed);

    let mut req = empty_update();
    req.status = Some(TaskStatus::Backlog);
    let (_, changed) = merge_task_update(t, &req, 22);
    assert!(!changed, "same status is no change");
}

#[test]
fn empty_update_keeps_everything_but_the_stamp() {
    let t = new_task(1, &create_req(2), 10);
    let (u, changed) = merge_task_update(t.clone(), &empty_update(), 99);
    assert!(!changed);
    assert_eq!(u.title, t.title);
    assert_eq!(u.description, t.description);
    assert_eq!(u.position, t.position);
    assert_eq!(u.updated_at, 99);
}

#[test]
fn assignees_must_exist_and_be_members() {
    let (u, p) = (Uuid::new_v4(), Uuid::new_v4());
    assert!(validate_assigned_to(None, p.as_u128(), false, false).is_ok());
    assert!(validate_assigned_to(Some(u.as_u128()), p.as_u128(), true, true).is_ok());
    match validate_assigned_to(Some(u.as_u128()), p.as_u128(), false, false) {
        Err(AppError::Validation(m)) => assert_eq!(m, format!("assigned user {u} does not exist")),
        other => panic!("unexpected {other:?}"),
    }
    match validate_assigned_to(Some(u.as_u128()), p.as_u128(), true, false) {
        Err(AppError::Validation(m)) => assert_eq!(m, format!("assigned user {u} is not a member of project {p}")),
        other => panic!("unexpected {other:?}"),
    }
}

#[test]
fn parents_must_exist_in_the_same_project() {
    let parent = Uuid::new_v4();
    assert!(validate_parent_project(None, 1, None).is_ok());
    assert!(validate_parent_project(Some(parent.as_u128()), 1, Some(1)).is_ok());
    assert!(matches!(
        validate_parent_project(Some(parent.as_u128()), 1, Some(2)),
        Err(AppError::Validation(m)) if m == "parent task must belong to the same project"
    ));
    match validate_parent_project(Some(parent.as_u128()), 1, None) {
        Err(AppError::Validation(m)) => assert_eq!(m, format!("parent task {parent} does not exist")),
        other => panic!("unexpected {other:?}"),
    }
}

#[test]
fn missing_tasks_are_not_found() {
    let id = Uuid::new_v4();
    match found_task(id.as_u128(), None) {
        Err(AppError::NotFound(m)) => assert_eq!(m, format!("task {id} not found")),
        other => panic!("unexpected {other:?}"),
    }
    assert!(found_task(1, Some(new_task(1, &create_req(2), 0))).is_ok());
}

#[test]
fn status_labels() {
    assert_eq!(task_status_name(TaskStatus::InProgress), "in_progress");
    assert_eq!(task_status_name(TaskStatus::Backlog), "backlog");
}

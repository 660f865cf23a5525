use gantry_backend::error::AppError;
use gantry_backend::projects::{
    check_repository_path, found_project, merge_project_update, new_project, validate_repository_path,
    CreateProjectRequest, UpdateProjectRequest,
};
use tempfile::TempDir;

#[test]
fn new_project_keeps_request_fields() {
    let p = new_project(
        1,
        &CreateProjectRequest { name: "Test Project".to_string(), description: None, repository_path: Some("/r".to_string()) },
        5,
    );
    assert_eq!(p.name, "Test Project");
    assert!(p.description.is_none());
    assert_eq!(p.repository_path, Some("/r".to_string()));
}

#[test]
fn update_preserves_repository_path_when_not_provided() {
    let p = new_project(
        1,
        &CreateProjectRequest { name: "P".to_string(), description: None, repository_path: Some("/existing/path".to_string()) },
        5,
    );
    let u = merge_project_update(
        p.clone(),
        &UpdateProjectRequest { name: Some("Updated Name".to_string()), description: None, repository_path: None },
        6,
    );
    assert_eq!(u.name, "Updated Name");
    assert_eq!(u.repository_path, Some("/existing/path".to_string()));
    let u = merge_project_update(
        p,
        &UpdateProjectRequest { name: None, description: Some("d".to_string()), repository_path: Some("/new/repo/path".to_string()) },
        7,
    );
    assert_eq!(u.name, "P");
    assert_eq!(u.repository_path, Some("/new/repo/path".to_string()));
    assert_eq!(u.description, Some("d".to_string()));
}

#[test]
fn missing_projects_are_not_found() {
    let id = uuid::Uuid::new_v4();
    match found_project(id.as_u128(), None) {
        Err(AppError::NotFound(m)) => assert_eq!(m, format!("project {id} not found")),
        other => panic!("unexpected {other:?}"),
    }
}

#[test]
fn test_validate_repository_path_rejects_nonexistent() {
    let result = validate_repository_path("/nonexistent/path/that/does/not/exist");
    assert!(matches!(result, Err(AppError::Validation(m)) if m == "repository path does not exist: /nonexistent/path/that/does/not/exist"));
}

#[test]
fn test_validate_repository_path_rejects_non_directory() {
    let dir = TempDir::new().unwrap();
    let repo = git2::Repository::init(dir.path()).unwrap();
    // the repository's HEAD file is a plain file
    let file_path = repo.path().join("HEAD");
    let result = validate_repository_path(file_path.to_str().unwrap());
    assert!(matches!(result, Err(AppError::Validation(m)) if m.starts_with("repository path is not a directory")));
}

#[test]
fn test_validate_repository_path_rejects_non_git_repo() {
    let dir = TempDir::new().unwrap();
    let result = validate_repository_path(dir.path().to_str().unwrap());
    assert!(matches!(result, Err(AppError::Validation(m)) if m.starts_with("path is not a valid git repository")));
}

#[test]
fn test_validate_repository_path_accepts_valid_git_repo() {
    let dir = TempDir::new().unwrap();
    git2::Repository::init(dir.path()).unwrap();
    let padded = format!("  {}\t", dir.path().to_str().unwrap());
    assert!(validate_repository_path(&padded).is_ok(), "surrounding white space is trimmed");
}

#[test]
fn blank_repository_path_is_empty() {
    for blank in ["", "   ", "\t\n"] {
        assert!(matches!(validate_repository_path(blank), Err(AppError::Validation(m)) if m == "repository path is empty"));
    }
}

#[test]
fn verdict_names_the_first_failed_check() {
    assert!(check_repository_path("/x", true, true, true).is_ok());
    assert!(matches!(check_repository_path("/x", false, true, true), Err(AppError::Validation(m)) if m == "repository path does not exist: /x"));
    assert!(matches!(check_repository_path("/x", true, false, true), Err(AppError::Validation(m)) if m == "repository path is not a directory: /x"));
    assert!(matches!(check_repository_path("/x", true, true, false), Err(AppError::Validation(m)) if m == "path is not a valid git repository: /x"));
}

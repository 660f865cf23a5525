use gantry_backend::content::{check_comment_deleted, check_message_deleted, message_page, MessagePage};
use gantry_backend::error::AppError;
use gantry_backend::github::{check_link_changed, found_link, parse_pr_state, stored_pr_state, PrState};

#[test]
fn pr_states_normalise_to_open_or_closed() {
    assert_eq!(stored_pr_state("closed"), "closed");
    assert_eq!(stored_pr_state("open"), "open");
    assert_eq!(stored_pr_state("merged"), "open");
    assert_eq!(parse_pr_state("closed"), PrState::Closed);
}

#[test]
fn missing_links_are_not_found() {
    let pid = uuid::Uuid::new_v4();
    assert!(matches!(found_link(pid.as_u128(), None), Err(AppError::NotFound(m)) if m == format!("github link for project {pid} not found")));
    assert!(matches!(check_link_changed(pid.as_u128(), 0), Err(AppError::NotFound(_))));
    assert!(check_link_changed(pid.as_u128(), 1).is_ok());
}

#[test]
fn admin_deletes_need_a_row() {
    let id = uuid::Uuid::new_v4();
    assert!(matches!(check_comment_deleted(id.as_u128(), 0), Err(AppError::NotFound(m)) if m == format!("comment {id} not found")));
    assert!(matches!(check_message_deleted(id.as_u128(), 0), Err(AppError::NotFound(m)) if m == format!("project message not found: {id}")));
    assert!(check_comment_deleted(1, 1).is_ok());
}

#[test]
fn message_pages_use_the_cursor_when_given() {
    assert_eq!(message_page(None, 50), MessagePage::Latest { limit: 50 });
    assert_eq!(message_page(Some(9), 50), MessagePage::Before { cursor: 9, limit: 50 });
}

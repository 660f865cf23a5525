use vstd::prelude::*;

use crate::error::AppError;
use crate::ids::{format_uuid, uuid_text};

verus! {

/// A comment on a task.
#[derive(Debug, Clone)]
pub struct TaskComment {
    pub id: u128,
    pub task_id: u128,
    pub user_id: u128,
    pub user_name: String,
    pub content: String,
    pub created_at: i64,
    pub updated_at: i64,
}

/// A message in a project's chat.
#[derive(Debug, Clone)]
pub struct ProjectMessage {
    pub id: u128,
    pub project_id: u128,
    pub user_id: u128,
    pub user_name: String,
    pub content: String,
    pub created_at: i64,
}

/// Message of a missing comment.
pub open spec fn comment_not_found_text(id: u128) -> Seq<char> {
    "comment "@ + uuid_text(id) + " not found"@
}

/// Checks that an administrative delete removed the comment.
pub fn check_comment_deleted(id: u128, rows: u64) -> (r: Result<(), AppError>)
    ensures
        r is Ok <==> rows > 0,
        r is Err ==> r->Err_0 is NotFound && r->Err_0.text() == comment_not_found_text(id),
{
    if rows == 0 {
        let msg = String::from_str("comment ").concat(format_uuid(id).as_str()).concat(" not found");
        return Err(AppError::NotFound(msg));
    }
    Ok(())
}

/// Message of a missing project message.
pub open spec fn message_not_found_text(id: u128) -> Seq<char> {
    "project message not found: "@ + uuid_text(id)
}

/// Checks that an administrative delete removed the message.
pub fn check_message_deleted(id: u128, rows: u64) -> (r: Result<(), AppError>)
    ensures
        r is Ok <==> rows > 0,
        r is Err ==> r->Err_0 is NotFound && r->Err_0.text() == message_not_found_text(id),
{
    if rows == 0 {
        return Err(AppError::NotFound(String::from_str("project message not found: ").concat(format_uuid(id).as_str())));
    }
    Ok(())
}

/// How a page of project messages is read: the newest `limit` messages, or,
/// given a cursor instant, the newest `limit` messages strictly older than it.
#[derive(Debug, Clone, Copy, PartialEq, Eq, Structural)]
pub enum MessagePage {
    Latest { limit: i64 },
    Before { cursor: i64, limit: i64 },
}

/// Chooses how to read a page of messages.
pub fn message_page(before: Option<i64>, limit: i64) -> (p: MessagePage)
    ensures
        before is None ==> p == (MessagePage::Latest { limit }),
        before is Some ==> p == (MessagePage::Before { cursor: before->0, limit }),
{
    match before {
        Some(cursor) => MessagePage::Before { cursor, limit },
        None => MessagePage::Latest { limit },
    }
}

} // verus!

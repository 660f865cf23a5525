//! Verified core of the Gantry board backend: the rules that decide what the
//! service layer does, written as functions on plain values.

pub mod error;
pub mod agent_session;
pub mod ids;
pub mod output;
pub mod preview;
pub mod text;
pub mod authz;
pub mod tasks;
pub mod projects;
pub mod worktree;
pub mod invitation;
pub mod session;
pub mod content;
pub mod github;
pub mod users;
pub mod events;
pub mod backup;
pub mod rows;
pub mod audit;

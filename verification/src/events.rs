use vstd::prelude::*;

use crate::agent_session::AgentSession;
use crate::content::{ProjectMessage, TaskComment};
use crate::github::SyncResult;
use crate::preview::DockerPreview;
use crate::tasks::Task;

verus! {

/// Default capacity of the broadcast hubs.
pub const DEFAULT_HUB_CAPACITY: usize = 256;

/// Server-sent event for real-time updates.
#[derive(Debug, Clone)]
pub enum SseEvent {
    TaskCreated { task: Task },
    TaskUpdated { task: Task },
    TaskDeleted { task_id: u128 },
    AgentOutput { session_id: u128, text: String },
    AgentSessionStatusChanged { session: AgentSession },
    CommentCreated { comment: TaskComment },
    CommentUpdated { comment: TaskComment },
    CommentDeleted { comment_id: u128, task_id: u128 },
    ProjectMessageCreated { message: ProjectMessage },
    ProjectMessageDeleted { message_id: u128, project_id: u128 },
    PreviewStatusChanged { preview: DockerPreview },
    PreviewDeleted { preview_id: u128 },
    GitHubSyncCompleted { result: SyncResult },
    GitHubSyncFailed { project_id: u128, error: String },
}

/// Message of the WebSocket hub.
#[derive(Debug, Clone)]
pub enum WsMessage {
    TaskCreated { task: Task },
    TaskUpdated { task: Task },
    TaskDeleted { task_id: u128 },
}

/// The name of an event's kind, as the SSE `event:` line and the WebSocket
/// envelope carry it.
pub open spec fn event_type_text(e: SseEvent) -> Seq<char> {
    match e {
        SseEvent::TaskCreated { .. } => "task_created"@,
        SseEvent::TaskUpdated { .. } => "task_updated"@,
        SseEvent::TaskDeleted { .. } => "task_deleted"@,
        SseEvent::AgentOutput { .. } => "agent_output"@,
        SseEvent::AgentSessionStatusChanged { .. } => "agent_session_status_changed"@,
        SseEvent::CommentCreated { .. } => "comment_created"@,
        SseEvent::CommentUpdated { .. } => "comment_updated"@,
        SseEvent::CommentDeleted { .. } => "comment_deleted"@,
        SseEvent::ProjectMessageCreated { .. } => "project_message_created"@,
        SseEvent::ProjectMessageDeleted { .. } => "project_message_deleted"@,
        SseEvent::PreviewStatusChanged { .. } => "preview_status_changed"@,
        SseEvent::PreviewDeleted { .. } => "preview_deleted"@,
        SseEvent::GitHubSyncCompleted { .. } => "github_sync_completed"@,
        SseEvent::GitHubSyncFailed { .. } => "github_sync_failed"@,
    }
}

/// The project an event belongs to, where the event carries it: tasks, project
/// messages and synchronisation outcomes do; deleted tasks, agent output,
/// sessions, comments and previews do not.
pub open spec fn event_project(e: SseEvent) -> Option<u128> {
    match e {
        SseEvent::TaskCreated { task } => Some(task.project_id),
        SseEvent::TaskUpdated { task } => Some(task.project_id),
        SseEvent::ProjectMessageCreated { message } => Some(message.project_id),
        SseEvent::ProjectMessageDeleted { project_id, .. } => Some(project_id),
        SseEvent::GitHubSyncCompleted { result } => Some(result.project_id),
        SseEvent::GitHubSyncFailed { project_id, .. } => Some(project_id),
        _ => None,
    }
}

impl SseEvent {
    pub fn task_created(task: Task) -> (e: Self)
        ensures
            e == (SseEvent::TaskCreated { task }),
    {
        SseEvent::TaskCreated { task }
    }

    pub fn task_updated(task: Task) -> (e: Self)
        ensures
            e == (SseEvent::TaskUpdated { task }),
    {
        SseEvent::TaskUpdated { task }
    }

    pub fn task_deleted(task_id: u128) -> (e: Self)
        ensures
            e == (SseEvent::TaskDeleted { task_id }),
    {
        SseEvent::TaskDeleted { task_id }
    }

    pub fn agent_output(session_id: u128, text: String) -> (e: Self)
        ensures
            e == (SseEvent::AgentOutput { session_id, text }),
    {
        SseEvent::AgentOutput { session_id, text }
    }

    pub fn agent_session_status_changed(session: AgentSession) -> (e: Self)
        ensures
            e == (SseEvent::AgentSessionStatusChanged { session }),
    {
        SseEvent::AgentSessionStatusChanged { session }
    }

    pub fn comment_created(comment: TaskComment) -> (e: Self)
        ensures
            e == (SseEvent::CommentCreated { comment }),
    {
        SseEvent::CommentCreated { comment }
    }

    pub fn comment_updated(comment: TaskComment) -> (e: Self)
        ensures
            e == (SseEvent::CommentUpdated { comment }),
    {
        SseEvent::CommentUpdated { comment }
    }

    pub fn comment_deleted(comment_id: u128, task_id: u128) -> (e: Self)
        ensures
            e == (SseEvent::CommentDeleted { comment_id, task_id }),
    {
        SseEvent::CommentDeleted { comment_id, task_id }
    }

    pub fn project_message_created(message: ProjectMessage) -> (e: Self)
        ensures
            e == (SseEvent::ProjectMessageCreated { message }),
    {
        SseEvent::ProjectMessageCreated { message }
    }

    pub fn project_message_deleted(message_id: u128, project_id: u128) -> (e: Self)
        ensures
            e == (SseEvent::ProjectMessageDeleted { message_id, project_id }),
    {
        SseEvent::ProjectMessageDeleted { message_id, project_id }
    }

    pub fn preview_status_changed(preview: DockerPreview) -> (e: Self)
        ensures
            e == (SseEvent::PreviewStatusChanged { preview }),
    {
        SseEvent::PreviewStatusChanged { preview }
    }

    pub fn preview_deleted(preview_id: u128) -> (e: Self)
        ensures
            e == (SseEvent::PreviewDeleted { preview_id }),
    {
        SseEvent::PreviewDeleted { preview_id }
    }

    pub fn github_sync_completed(result: SyncResult) -> (e: Self)
        ensures
            e == (SseEvent::GitHubSyncCompleted { result }),
    {
        SseEvent::GitHubSyncCompleted { result }
    }

    pub fn github_sync_failed(project_id: u128, error: String) -> (e: Self)
        ensures
            e == (SseEvent::GitHubSyncFailed { project_id, error }),
    {
        SseEvent::GitHubSyncFailed { project_id, error }
    }

    /// The name of the event's kind.
    pub fn event_type(&self) -> (s: &'static str)
        ensures
            s@ == event_type_text(*self),
    {
        match self {
            SseEvent::TaskCreated { .. } => "task_created",
            SseEvent::TaskUpdated { .. } => "task_updated",
            SseEvent::TaskDeleted { .. } => "task_deleted",
            SseEvent::AgentOutput { .. } => "agent_output",
            SseEvent::AgentSessionStatusChanged { .. } => "agent_session_status_changed",
            SseEvent::CommentCreated { .. } => "comment_created",
            SseEvent::CommentUpdated { .. } => "comment_updated",
            SseEvent::CommentDeleted { .. } => "comment_deleted",
            SseEvent::ProjectMessageCreated { .. } => "project_message_created",
            SseEvent::ProjectMessageDeleted { .. } => "project_message_deleted",
            SseEvent::PreviewStatusChanged { .. } => "preview_status_changed",
            SseEvent::PreviewDeleted { .. } => "preview_deleted",
            SseEvent::GitHubSyncCompleted { .. } => "github_sync_completed",
            SseEvent::GitHubSyncFailed { .. } => "github_sync_failed",
        }
    }

    /// The project the event belongs to, where it carries one.
    pub fn project_id(&self) -> (p: Option<u128>)
        ensures
            p == event_project(*self),
            *self matches SseEvent::TaskCreated { task } ==> p == Some(task.project_id),
            *self matches SseEvent::TaskUpdated { task } ==> p == Some(task.project_id),
            *self matches SseEvent::ProjectMessageCreated { message } ==> p == Some(message.project_id),
            *self matches SseEvent::ProjectMessageDeleted { project_id, .. } ==> p == Some(project_id),
            *self matches SseEvent::GitHubSyncCompleted { result } ==> p == Some(result.project_id),
            *self matches SseEvent::GitHubSyncFailed { project_id, .. } ==> p == Some(project_id),
    {
        match self {
            SseEvent::TaskCreated { task } => Some(task.project_id),
            SseEvent::TaskUpdated { task } => Some(task.project_id),
            SseEvent::ProjectMessageCreated { message } => Some(message.project_id),
            SseEvent::ProjectMessageDeleted { project_id, .. } => Some(*project_id),
            SseEvent::GitHubSyncCompleted { result } => Some(result.project_id),
            SseEvent::GitHubSyncFailed { project_id, .. } => Some(*project_id),
            _ => None,
        }
    }
}

/// Whether a project subscriber passes an event on: events of its project and
/// events that carry no project.
pub open spec fn project_receiver_passes(e: SseEvent, project_id: u128) -> bool {
    match event_project(e) {
        Some(pid) => pid == project_id,
        None => true,
    }
}

/// Whether a project subscriber passes an event on (see `project_receiver_passes`).
pub fn project_receiver_accepts(event: &SseEvent, project_id: u128) -> (r: bool)
    ensures
        r == project_receiver_passes(*event, project_id),
{
    match event.project_id() {
        Some(pid) => pid == project_id,
        None => true,
    }
}

/// Whether the SSE endpoint forwards an event to a client with the given
/// project filter: without a filter everything; with one, only the events of
/// that project (events without a project are held back, so that nothing
/// leaks across projects).
pub open spec fn sse_forwards(filter: Option<u128>, e: SseEvent) -> bool {
    match filter {
        None => true,
        Some(pid) => event_project(e) == Some(pid),
    }
}

/// Whether the SSE endpoint forwards an event (see `sse_forwards`).
pub fn sse_filter_accepts(filter: Option<u128>, event: &SseEvent) -> (r: bool)
    ensures
        r == sse_forwards(filter, *event),
{
    match filter {
        None => true,
        Some(pid) => {
            match event.project_id() {
                Some(epid) => epid == pid,
                None => false,
            }
        },
    }
}

/// Admits a real-time connection given the number open before it and the
/// limit: the connection counts, and is refused (and uncounted) at the limit.
pub fn admit_connection(current: usize, max: usize) -> (r: bool)
    ensures
        r == (current < max),
{
    current < max
}

/// The WebSocket frame of an event: `{"data":<event JSON>,"event":"<kind>"}`,
/// the keys in the order `serde_json` writes an object's keys.
pub open spec fn ws_envelope_text(event_type: Seq<char>, data_json: Seq<char>) -> Seq<char> {
    "{\"data\":"@ + data_json + ",\"event\":\""@ + event_type + "\"}"@
}

/// Frames an event's JSON for the WebSocket transport.
pub fn ws_envelope(event: &SseEvent, data_json: &str) -> (s: String)
    ensures
        s@ == ws_envelope_text(event_type_text(*event), data_json@),
{
    String::from_str("{\"data\":").concat(data_json).concat(",\"event\":\"").concat(event.event_type()).concat("\"}")
}

/// Events about a project are routed to it: a created or updated task, a
/// posted or deleted project message and a synchronisation outcome carry
/// their project, so the SSE client filtered on that project receives them,
/// a client filtered on another project does not, and the project's
/// subscribers see them while other projects' subscribers do not.
pub proof fn lemma_project_events_are_routed(t: Task, m: ProjectMessage, message_id: u128, r: SyncResult, error: String, other: u128)
    ensures
        event_project(SseEvent::TaskCreated { task: t }) == Some(t.project_id),
        event_project(SseEvent::TaskUpdated { task: t }) == Some(t.project_id),
        event_project(SseEvent::ProjectMessageCreated { message: m }) == Some(m.project_id),
        event_project(SseEvent::ProjectMessageDeleted { message_id, project_id: m.project_id }) == Some(m.project_id),
        event_project(SseEvent::GitHubSyncCompleted { result: r }) == Some(r.project_id),
        event_project(SseEvent::GitHubSyncFailed { project_id: r.project_id, error }) == Some(r.project_id),
        sse_forwards(Some(t.project_id), SseEvent::TaskCreated { task: t }),
        sse_forwards(Some(t.project_id), SseEvent::TaskUpdated { task: t }),
        other != t.project_id ==> !sse_forwards(Some(other), SseEvent::TaskUpdated { task: t }),
        other != t.project_id ==> !sse_forwards(Some(other), SseEvent::TaskCreated { task: t }),
        project_receiver_passes(SseEvent::TaskUpdated { task: t }, t.project_id),
        other != t.project_id ==> !project_receiver_passes(SseEvent::TaskUpdated { task: t }, other),
        other != t.project_id ==> !project_receiver_passes(SseEvent::TaskCreated { task: t }, other),
{
}

/// A project subscriber sees everything the filtered SSE endpoint sends for
/// its project, and more: the events without a project.
pub proof fn lemma_filters_nest(e: SseEvent, project_id: u128)
    ensures
        sse_forwards(Some(project_id), e) ==> project_receiver_passes(e, project_id),
        event_project(e) is None ==> project_receiver_passes(e, project_id) && !sse_forwards(Some(project_id), e),
        sse_forwards(None, e),
{
}

/// What happened on a WebSocket connection, as its handler loop sees it.
#[derive(Debug, Clone)]
pub enum SocketEvent {
    /// An event came from the hub; `frame` is its rendered text, if it could be rendered.
    Broadcast { frame: Option<String> },
    /// The connection fell behind the hub and missed `skipped` events.
    Lagged { skipped: u64 },
    /// The hub closed.
    ChannelClosed,
    /// The ping interval elapsed.
    PingTick,
    /// The client sent a close frame.
    ClientClose,
    /// The client sent some other message.
    ClientMessage,
    /// The client's stream ended.
    ClientEnd,
    /// Reading from the client failed.
    ClientError,
    /// A frame was sent.
    Sent,
    /// Sending a frame failed.
    SendFailed,
}

/// What the WebSocket handler does next.
#[derive(Debug, Clone)]
pub enum SocketAction {
    /// Send this text frame.
    Send { text: String },
    /// Send a ping.
    SendPing,
    /// Report that the client lagged, and go on.
    ReportLag { skipped: u64 },
    /// Wait for the next event.
    Continue,
    /// Close the connection.
    Stop,
}

/// One decision of the WebSocket handler: a rendered event is sent and an
/// unrenderable one skipped; a lag is reported; a ping tick sends a ping; the
/// hub closing, the client closing, ending or failing, and a failed send end
/// the connection; a successful send and any other client message go on.
pub fn socket_step(ev: SocketEvent) -> (a: SocketAction)
    ensures
        ev matches SocketEvent::Broadcast { frame: Some(t) } ==> a == (SocketAction::Send { text: t }),
        ev matches SocketEvent::Broadcast { frame: None } ==> a is Continue,
        ev matches SocketEvent::Lagged { skipped } ==> a == (SocketAction::ReportLag { skipped }),
        ev is PingTick ==> a is SendPing,
        (ev is ClientMessage || ev is Sent) ==> a is Continue,
        (ev is ChannelClosed || ev is ClientClose || ev is ClientEnd || ev is ClientError || ev is SendFailed) ==> a is Stop,
{
    match ev {
        SocketEvent::Broadcast { frame: Some(text) } => SocketAction::Send { text },
        SocketEvent::Broadcast { frame: None } => SocketAction::Continue,
        SocketEvent::Lagged { skipped } => SocketAction::ReportLag { skipped },
        SocketEvent::PingTick => SocketAction::SendPing,
        SocketEvent::ClientMessage | SocketEvent::Sent => SocketAction::Continue,
        SocketEvent::ChannelClosed | SocketEvent::ClientClose | SocketEvent::ClientEnd | SocketEvent::ClientError
        | SocketEvent::SendFailed => SocketAction::Stop,
    }
}

} // verus!

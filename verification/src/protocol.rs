//! Data model shared by the approval flow and the relay loops: file changes,
//! review decisions, agent operations, session events, and the pieces of the
//! JSON-RPC protocol that the bridge speaks.

use vstd::prelude::*;

verus! {

/// JSON-RPC error code for a request whose parameters are invalid; the bridge
/// uses it when the elicitation payload cannot be serialized.
pub const INVALID_PARAMS_ERROR_CODE: i64 = -32602;

/// A proposed change to a single file within a patch awaiting approval.
#[derive(Debug, Clone, Copy, PartialEq, Eq, Structural)]
pub enum FileChange {
    /// Create the file.
    Add,
    /// Remove the file.
    Delete,
    /// Modify the file's contents.
    Modify,
}

/// Outcome of a human review of a proposed patch.
#[derive(Debug, Clone, Copy, PartialEq, Eq, Structural)]
pub enum ReviewDecision {
    /// Apply the proposed changes.
    Approved,
    /// Apply them, and approve similar changes for the rest of the session.
    ApprovedForSession,
    /// Do not apply the changes. Also the safe default on any failure.
    Denied,
    /// Abort the task that proposed the changes.
    Abort,
}

/// An instruction submitted to the conversation engine.
#[derive(Debug, Clone, PartialEq, Eq)]
pub enum Op {
    /// Terminal decision for the approval identified by `id`; submitted at
    /// most once per id.
    PatchApproval { id: String, decision: ReviewDecision },
    /// Text typed by the user.
    UserInput { text: String },
    /// Interrupt the current task.
    Interrupt,
}

/// Payload of the notification the engine emits once a session is configured.
#[derive(Debug, Clone, PartialEq, Eq)]
pub struct SessionConfiguredEvent {
    pub session_id: String,
    pub model: String,
}

/// Payload of a notification from the conversation engine.
#[derive(Debug, Clone, PartialEq, Eq)]
pub enum EventMsg {
    /// Synthetic first notification forwarded by the bridge.
    SessionConfigured(SessionConfiguredEvent),
    /// A message produced by the agent.
    AgentMessage { message: String },
    /// The current task finished.
    TaskComplete,
    /// The engine reported an error.
    Error { message: String },
}

/// A notification, correlated to the operation that caused it by `id`.
#[derive(Debug, Clone, PartialEq, Eq)]
pub struct Event {
    pub id: String,
    pub msg: EventMsg,
}

/// Identifier of a JSON-RPC request, as the wire protocol allows both forms.
#[derive(Debug, Clone, PartialEq, Eq)]
pub enum RequestId {
    Integer(i64),
    Text(String),
}

/// A JSON-RPC error response, sent back correlated to the request it answers.
#[derive(Debug, Clone, PartialEq, Eq)]
pub struct JsonRpcError {
    pub code: i64,
    pub message: String,
}

} // verus!

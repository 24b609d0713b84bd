//! Data model of the event-streaming bridge: the engine-side event taxonomy
//! and the protocol-side wire taxonomy.
//!
//! Engine events come in two families. Workflow-level events describe the
//! whole process; `Succeeded`, `Failed` and `Aborted` are terminal, `Start`
//! and `Paused` are not. Node-level events and log records are never
//! terminal.

use vstd::prelude::*;

verus! {

/// Reason attached to a node-level error by the engine.
#[derive(Clone, Debug, PartialEq)]
pub enum NodeErrorReason {
    /// The node's action timed out.
    Timeout,
    /// The node's action returned a failure.
    Failed(String),
    /// The node's action raised an unexpected exception.
    Exception(String),
}

impl NodeErrorReason {
    /// The text the wire format carries for this reason.
    pub open spec fn render_spec(&self) -> Seq<char> {
        match self {
            NodeErrorReason::Timeout => "Timeout"@,
            NodeErrorReason::Failed(m) => "Failed: "@ + m@,
            NodeErrorReason::Exception(m) => "Exception: "@ + m@,
        }
    }

    /// Renders the reason as the message text carried on the wire.
    pub fn render(&self) -> (r: String)
        ensures
            r@ == self.render_spec(),
    {
        match self {
            NodeErrorReason::Timeout => String::from_str("Timeout"),
            NodeErrorReason::Failed(m) => String::from_str("Failed: ").concat(m.as_str()),
            NodeErrorReason::Exception(m) => String::from_str("Exception: ").concat(m.as_str()),
        }
    }
}

/// Workflow-level engine events.
#[derive(Clone, Debug, PartialEq)]
pub enum WorkflowEventKind {
    /// The workflow began executing.
    Start,
    /// The workflow completed successfully. Terminal.
    Succeeded,
    /// The workflow failed. Terminal.
    Failed { error: String },
    /// The workflow was aborted. Terminal.
    Aborted { reason: String },
    /// The workflow was paused.
    Paused { reason: String },
}

/// Node-level engine events. None of these is terminal for the stream.
#[derive(Clone, Debug, PartialEq)]
pub enum NodeEventKind {
    /// The node began executing.
    Running,
    /// The node was stopped.
    Stopped,
    /// The node was paused.
    Paused,
    /// The node was skipped.
    Skipped,
    /// The node completed successfully.
    Succeeded,
    /// The node failed with a reason.
    Error { reason: NodeErrorReason },
    /// The node is being retried.
    Retry,
}

/// The two families of engine events.
#[derive(Clone, Debug, PartialEq)]
pub enum EngineEventKind {
    /// An event about the workflow as a whole.
    Workflow(WorkflowEventKind),
    /// An event about a single node.
    Node(NodeEventKind),
}

/// One event delivered by the engine's event callback.
#[derive(Clone, Debug, PartialEq)]
pub struct EngineEvent {
    /// Identifier of the process that emitted the event.
    pub pid: String,
    /// Identifier of the node the event is about; empty for workflow events.
    pub nid: String,
    /// The event itself.
    pub kind: EngineEventKind,
}

/// One log record delivered by the engine's log callback.
#[derive(Clone, Debug, PartialEq)]
pub struct LogRecord {
    /// Identifier of the process that emitted the record.
    pub pid: String,
    /// Identifier of the node that emitted the record.
    pub nid: String,
    /// The log line.
    pub content: String,
    /// Timestamp of the record, in milliseconds.
    pub timestamp: i64,
}

/// The protocol-visible union of translated events and log records.
#[derive(Clone, Debug, PartialEq)]
pub enum WireEvent {
    /// The workflow began executing.
    WorkflowStart { pid: String },
    /// The workflow completed successfully.
    WorkflowSuccess { pid: String },
    /// The workflow failed.
    WorkflowFailure { pid: String, err_msg: String },
    /// The workflow was aborted.
    WorkflowAbort { pid: String, reason: String },
    /// The workflow was paused.
    WorkflowPause { pid: String, reason: String },
    /// A node began executing.
    NodeRunning { pid: String, nid: String },
    /// A node was stopped.
    NodeStopped { pid: String, nid: String },
    /// A node was paused.
    NodePaused { pid: String, nid: String, reason: String },
    /// A node was skipped.
    NodeSkipped { pid: String, nid: String },
    /// A node completed successfully.
    NodeSuccess { pid: String, nid: String },
    /// A node failed.
    NodeError { pid: String, nid: String, err_msg: String },
    /// A node is being retried.
    NodeRetry { pid: String, nid: String },
    /// A log line from a node.
    NodeLog { pid: String, nid: String, content: String, timestamp: i64 },
}

/// Whether an engine event is terminal for the outbound stream: exactly the
/// workflow-level `Succeeded`, `Failed` and `Aborted` events.
pub open spec fn engine_event_is_terminal(e: EngineEvent) -> bool {
    match e.kind {
        EngineEventKind::Workflow(WorkflowEventKind::Succeeded) => true,
        EngineEventKind::Workflow(WorkflowEventKind::Failed { .. }) => true,
        EngineEventKind::Workflow(WorkflowEventKind::Aborted { .. }) => true,
        _ => false,
    }
}

/// Whether a wire event is the image of a terminal engine event.
pub open spec fn wire_event_is_terminal(w: WireEvent) -> bool {
    match w {
        WireEvent::WorkflowSuccess { .. } => true,
        WireEvent::WorkflowFailure { .. } => true,
        WireEvent::WorkflowAbort { .. } => true,
        _ => false,
    }
}

} // verus!

//! The event translator: a total, deterministic, side-effect-free mapping
//! from the engine's event and log taxonomy to the wire taxonomy.
//!
//! Every engine variant has exactly one wire counterpart; the match is
//! exhaustive, so totality is enforced at compile time, and the functions
//! are pure, so equal inputs always yield equal outputs. The terminal
//! classification lives beside the mapping but is not part of the wire
//! format: the bridge consults it to decide when to close the stream.

use vstd::prelude::*;

use crate::events::{
    EngineEvent, EngineEventKind, LogRecord, NodeEventKind, WireEvent, WorkflowEventKind,
    engine_event_is_terminal, wire_event_is_terminal,
};

verus! {

/// The reason text the wire format carries for a paused node.
pub open spec fn node_paused_reason() -> Seq<char> {
    "Paused by user"@
}

/// The exact relation between an engine event and its wire counterpart:
/// `translates_to(e, w)` holds when `w` is the one wire event that `e`
/// maps to, field by field.
pub open spec fn translates_to(e: EngineEvent, w: WireEvent) -> bool {
    match e.kind {
        EngineEventKind::Workflow(WorkflowEventKind::Start) => {
            w matches WireEvent::WorkflowStart { pid } && pid@ == e.pid@
        },
        EngineEventKind::Workflow(WorkflowEventKind::Succeeded) => {
            w matches WireEvent::WorkflowSuccess { pid } && pid@ == e.pid@
        },
        EngineEventKind::Workflow(WorkflowEventKind::Failed { error }) => {
            w matches WireEvent::WorkflowFailure { pid, err_msg }
                && pid@ == e.pid@
                && err_msg@ == error@
        },
        EngineEventKind::Workflow(WorkflowEventKind::Aborted { reason: r }) => {
            w matches WireEvent::WorkflowAbort { pid, reason }
                && pid@ == e.pid@
                && reason@ == r@
        },
        EngineEventKind::Workflow(WorkflowEventKind::Paused { reason: r }) => {
            w matches WireEvent::WorkflowPause { pid, reason }
                && pid@ == e.pid@
                && reason@ == r@
        },
        EngineEventKind::Node(NodeEventKind::Running) => {
            w matches WireEvent::NodeRunning { pid, nid } && pid@ == e.pid@ && nid@ == e.nid@
        },
        EngineEventKind::Node(NodeEventKind::Stopped) => {
            w matches WireEvent::NodeStopped { pid, nid } && pid@ == e.pid@ && nid@ == e.nid@
        },
        EngineEventKind::Node(NodeEventKind::Paused) => {
            w matches WireEvent::NodePaused { pid, nid, reason }
                && pid@ == e.pid@
                && nid@ == e.nid@
                && reason@ == node_paused_reason()
        },
        EngineEventKind::Node(NodeEventKind::Skipped) => {
            w matches WireEvent::NodeSkipped { pid, nid } && pid@ == e.pid@ && nid@ == e.nid@
        },
        EngineEventKind::Node(NodeEventKind::Succeeded) => {
            w matches WireEvent::NodeSuccess { pid, nid } && pid@ == e.pid@ && nid@ == e.nid@
        },
        EngineEventKind::Node(NodeEventKind::Error { reason }) => {
            w matches WireEvent::NodeError { pid, nid, err_msg }
                && pid@ == e.pid@
                && nid@ == e.nid@
                && err_msg@ == reason.render_spec()
        },
        EngineEventKind::Node(NodeEventKind::Retry) => {
            w matches WireEvent::NodeRetry { pid, nid } && pid@ == e.pid@ && nid@ == e.nid@
        },
    }
}

/// The exact relation between a log record and its wire counterpart.
pub open spec fn log_translates_to(l: LogRecord, w: WireEvent) -> bool {
    w matches WireEvent::NodeLog { pid, nid, content, timestamp }
        && pid@ == l.pid@
        && nid@ == l.nid@
        && content@ == l.content@
        && timestamp == l.timestamp
}

/// Translates one engine event into its wire counterpart.
pub fn translate_event(e: &EngineEvent) -> (w: WireEvent)
    ensures
        translates_to(*e, w),
        wire_event_is_terminal(w) == engine_event_is_terminal(*e),
{
    match &e.kind {
        EngineEventKind::Workflow(WorkflowEventKind::Start) => WireEvent::WorkflowStart {
            pid: e.pid.clone(),
        },
        EngineEventKind::Workflow(WorkflowEventKind::Succeeded) => WireEvent::WorkflowSuccess {
            pid: e.pid.clone(),
        },
        EngineEventKind::Workflow(WorkflowEventKind::Failed { error }) => {
            WireEvent::WorkflowFailure { pid: e.pid.clone(), err_msg: error.clone() }
        },
        EngineEventKind::Workflow(WorkflowEventKind::Aborted { reason }) => {
            WireEvent::WorkflowAbort { pid: e.pid.clone(), reason: reason.clone() }
        },
        EngineEventKind::Workflow(WorkflowEventKind::Paused { reason }) => {
            WireEvent::WorkflowPause { pid: e.pid.clone(), reason: reason.clone() }
        },
        EngineEventKind::Node(NodeEventKind::Running) => WireEvent::NodeRunning {
            pid: e.pid.clone(),
            nid: e.nid.clone(),
        },
        EngineEventKind::Node(NodeEventKind::Stopped) => WireEvent::NodeStopped {
            pid: e.pid.clone(),
            nid: e.nid.clone(),
        },
        EngineEventKind::Node(NodeEventKind::Paused) => WireEvent::NodePaused {
            pid: e.pid.clone(),
            nid: e.nid.clone(),
            reason: String::from_str("Paused by user"),
        },
        EngineEventKind::Node(NodeEventKind::Skipped) => WireEvent::NodeSkipped {
            pid: e.pid.clone(),
            nid: e.nid.clone(),
        },
        EngineEventKind::Node(NodeEventKind::Succeeded) => WireEvent::NodeSuccess {
            pid: e.pid.clone(),
            nid: e.nid.clone(),
        },
        EngineEventKind::Node(NodeEventKind::Error { reason }) => WireEvent::NodeError {
            pid: e.pid.clone(),
            nid: e.nid.clone(),
            err_msg: reason.render(),
        },
        EngineEventKind::Node(NodeEventKind::Retry) => WireEvent::NodeRetry {
            pid: e.pid.clone(),
            nid: e.nid.clone(),
        },
    }
}

/// Translates one log record into its wire counterpart. Log records are
/// never terminal.
pub fn translate_log(l: &LogRecord) -> (w: WireEvent)
    ensures
        log_translates_to(*l, w),
        !wire_event_is_terminal(w),
{
    WireEvent::NodeLog {
        pid: l.pid.clone(),
        nid: l.nid.clone(),
        content: l.content.clone(),
        timestamp: l.timestamp,
    }
}

/// Classifies an engine event as terminal or not: exactly the workflow-level
/// `Succeeded`, `Failed` and `Aborted` events are terminal.
pub fn event_is_terminal(e: &EngineEvent) -> (r: bool)
    ensures
        r == engine_event_is_terminal(*e),
{
    match &e.kind {
        EngineEventKind::Workflow(WorkflowEventKind::Succeeded) => true,
        EngineEventKind::Workflow(WorkflowEventKind::Failed { .. }) => true,
        EngineEventKind::Workflow(WorkflowEventKind::Aborted { .. }) => true,
        _ => false,
    }
}

/// View equality on wire events: same variant and field-by-field equal
/// contents.
pub open spec fn wire_view_eq(w1: WireEvent, w2: WireEvent) -> bool {
    match (w1, w2) {
        (WireEvent::WorkflowStart { pid: p1 }, WireEvent::WorkflowStart { pid: p2 }) => p1@ == p2@,
        (WireEvent::WorkflowSuccess { pid: p1 }, WireEvent::WorkflowSuccess { pid: p2 }) => {
            p1@ == p2@
        },
        (
            WireEvent::WorkflowFailure { pid: p1, err_msg: m1 },
            WireEvent::WorkflowFailure { pid: p2, err_msg: m2 },
        ) => p1@ == p2@ && m1@ == m2@,
        (
            WireEvent::WorkflowAbort { pid: p1, reason: r1 },
            WireEvent::WorkflowAbort { pid: p2, reason: r2 },
        ) => p1@ == p2@ && r1@ == r2@,
        (
            WireEvent::WorkflowPause { pid: p1, reason: r1 },
            WireEvent::WorkflowPause { pid: p2, reason: r2 },
        ) => p1@ == p2@ && r1@ == r2@,
        (
            WireEvent::NodeRunning { pid: p1, nid: n1 },
            WireEvent::NodeRunning { pid: p2, nid: n2 },
        ) => p1@ == p2@ && n1@ == n2@,
        (
            WireEvent::NodeStopped { pid: p1, nid: n1 },
            WireEvent::NodeStopped { pid: p2, nid: n2 },
        ) => p1@ == p2@ && n1@ == n2@,
        (
            WireEvent::NodePaused { pid: p1, nid: n1, reason: r1 },
            WireEvent::NodePaused { pid: p2, nid: n2, reason: r2 },
        ) => p1@ == p2@ && n1@ == n2@ && r1@ == r2@,
        (
            WireEvent::NodeSkipped { pid: p1, nid: n1 },
            WireEvent::NodeSkipped { pid: p2, nid: n2 },
        ) => p1@ == p2@ && n1@ == n2@,
        (
            WireEvent::NodeSuccess { pid: p1, nid: n1 },
            WireEvent::NodeSuccess { pid: p2, nid: n2 },
        ) => p1@ == p2@ && n1@ == n2@,
        (
            WireEvent::NodeError { pid: p1, nid: n1, err_msg: m1 },
            WireEvent::NodeError { pid: p2, nid: n2, err_msg: m2 },
        ) => p1@ == p2@ && n1@ == n2@ && m1@ == m2@,
        (WireEvent::NodeRetry { pid: p1, nid: n1 }, WireEvent::NodeRetry { pid: p2, nid: n2 }) => {
            p1@ == p2@ && n1@ == n2@
        },
        (
            WireEvent::NodeLog { pid: p1, nid: n1, content: c1, timestamp: t1 },
            WireEvent::NodeLog { pid: p2, nid: n2, content: c2, timestamp: t2 },
        ) => p1@ == p2@ && n1@ == n2@ && c1@ == c2@ && t1 == t2,
        _ => false,
    }
}

/// Translation is deterministic: an engine event has at most one wire
/// counterpart up to view equality, so repeated translation of an equal
/// input always yields an equal output.
pub proof fn lemma_translation_deterministic(e: EngineEvent, w1: WireEvent, w2: WireEvent)
    requires
        translates_to(e, w1),
        translates_to(e, w2),
    ensures
        wire_view_eq(w1, w2),
{
}

/// Log translation is deterministic in the same sense.
pub proof fn lemma_log_translation_deterministic(l: LogRecord, w1: WireEvent, w2: WireEvent)
    requires
        log_translates_to(l, w1),
        log_translates_to(l, w2),
    ensures
        wire_view_eq(w1, w2),
{
}

/// Translation is total: every engine event, whatever its variant, has a
/// wire counterpart, and the counterpart keeps the event's process
/// identifier and its terminal classification.
pub proof fn lemma_translation_total(e: EngineEvent, w: WireEvent)
    requires
        translates_to(e, w),
    ensures
        wire_event_is_terminal(w) == engine_event_is_terminal(e),
        (e.kind matches EngineEventKind::Workflow(WorkflowEventKind::Start))
            <==> (w matches WireEvent::WorkflowStart { .. }),
        (e.kind matches EngineEventKind::Workflow(WorkflowEventKind::Succeeded))
            <==> (w matches WireEvent::WorkflowSuccess { .. }),
        (e.kind matches EngineEventKind::Workflow(WorkflowEventKind::Failed { .. }))
            <==> (w matches WireEvent::WorkflowFailure { .. }),
        (e.kind matches EngineEventKind::Workflow(WorkflowEventKind::Aborted { .. }))
            <==> (w matches WireEvent::WorkflowAbort { .. }),
        (e.kind matches EngineEventKind::Workflow(WorkflowEventKind::Paused { .. }))
            <==> (w matches WireEvent::WorkflowPause { .. }),
        (e.kind matches EngineEventKind::Node(NodeEventKind::Running))
            <==> (w matches WireEvent::NodeRunning { .. }),
        (e.kind matches EngineEventKind::Node(NodeEventKind::Stopped))
            <==> (w matches WireEvent::NodeStopped { .. }),
        (e.kind matches EngineEventKind::Node(NodeEventKind::Paused))
            <==> (w matches WireEvent::NodePaused { .. }),
        (e.kind matches EngineEventKind::Node(NodeEventKind::Skipped))
            <==> (w matches WireEvent::NodeSkipped { .. }),
        (e.kind matches EngineEventKind::Node(NodeEventKind::Succeeded))
            <==> (w matches WireEvent::NodeSuccess { .. }),
        (e.kind matches EngineEventKind::Node(NodeEventKind::Error { .. }))
            <==> (w matches WireEvent::NodeError { .. }),
        (e.kind matches EngineEventKind::Node(NodeEventKind::Retry))
            <==> (w matches WireEvent::NodeRetry { .. }),
{
}

} // verus!

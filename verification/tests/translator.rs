use actflow_server::events::{
    EngineEvent, EngineEventKind, LogRecord, NodeErrorReason, NodeEventKind, WireEvent,
    WorkflowEventKind,
};
use actflow_server::translate::{event_is_terminal, translate_event, translate_log};

fn event(pid: &str, nid: &str, kind: EngineEventKind) -> EngineEvent {
    EngineEvent { pid: pid.to_string(), nid: nid.to_string(), kind: kind }
}

#[test]
fn workflow_variants_translate_exactly() {
    assert_eq!(
        translate_event(&event("p", "", EngineEventKind::Workflow(WorkflowEventKind::Start))),
        WireEvent::WorkflowStart { pid: "p".to_string() }
    );
    assert_eq!(
        translate_event(&event("p", "", EngineEventKind::Workflow(WorkflowEventKind::Succeeded))),
        WireEvent::WorkflowSuccess { pid: "p".to_string() }
    );
    assert_eq!(
        translate_event(&event(
            "p",
            "",
            EngineEventKind::Workflow(WorkflowEventKind::Failed { error: "e1".to_string() })
        )),
        WireEvent::WorkflowFailure { pid: "p".to_string(), err_msg: "e1".to_string() }
    );
    assert_eq!(
        translate_event(&event(
            "p",
            "",
            EngineEventKind::Workflow(WorkflowEventKind::Aborted { reason: "r1".to_string() })
        )),
        WireEvent::WorkflowAbort { pid: "p".to_string(), reason: "r1".to_string() }
    );
    assert_eq!(
        translate_event(&event(
            "p",
            "",
            EngineEventKind::Workflow(WorkflowEventKind::Paused { reason: "r2".to_string() })
        )),
        WireEvent::WorkflowPause { pid: "p".to_string(), reason: "r2".to_string() }
    );
}

#[test]
fn node_variants_translate_exactly() {
    assert_eq!(
        translate_event(&event("p", "n", EngineEventKind::Node(NodeEventKind::Running))),
        WireEvent::NodeRunning { pid: "p".to_string(), nid: "n".to_string() }
    );
    assert_eq!(
        translate_event(&event("p", "n", EngineEventKind::Node(NodeEventKind::Stopped))),
        WireEvent::NodeStopped { pid: "p".to_string(), nid: "n".to_string() }
    );
    assert_eq!(
        translate_event(&event("p", "n", EngineEventKind::Node(NodeEventKind::Paused))),
        WireEvent::NodePaused {
            pid: "p".to_string(),
            nid: "n".to_string(),
            reason: "Paused by user".to_string()
        }
    );
    assert_eq!(
        translate_event(&event("p", "n", EngineEventKind::Node(NodeEventKind::Skipped))),
        WireEvent::NodeSkipped { pid: "p".to_string(), nid: "n".to_string() }
    );
    assert_eq!(
        translate_event(&event("p", "n", EngineEventKind::Node(NodeEventKind::Succeeded))),
        WireEvent::NodeSuccess { pid: "p".to_string(), nid: "n".to_string() }
    );
    assert_eq!(
        translate_event(&event(
            "p",
            "n",
            EngineEventKind::Node(NodeEventKind::Error { reason: NodeErrorReason::Timeout })
        )),
        WireEvent::NodeError {
            pid: "p".to_string(),
            nid: "n".to_string(),
            err_msg: "Timeout".to_string()
        }
    );
    assert_eq!(
        translate_event(&event("p", "n", EngineEventKind::Node(NodeEventKind::Retry))),
        WireEvent::NodeRetry { pid: "p".to_string(), nid: "n".to_string() }
    );
}

#[test]
fn error_reasons_render_exactly() {
    assert_eq!(NodeErrorReason::Timeout.render(), "Timeout");
    assert_eq!(NodeErrorReason::Failed("x".to_string()).render(), "Failed: x");
    assert_eq!(NodeErrorReason::Exception("y".to_string()).render(), "Exception: y");
}

#[test]
fn log_records_translate_exactly() {
    let l = LogRecord {
        pid: "p".to_string(),
        nid: "n".to_string(),
        content: "hello".to_string(),
        timestamp: 42,
    };
    assert_eq!(
        translate_log(&l),
        WireEvent::NodeLog {
            pid: "p".to_string(),
            nid: "n".to_string(),
            content: "hello".to_string(),
            timestamp: 42
        }
    );
}

#[test]
fn translation_is_deterministic() {
    let e = event(
        "p",
        "",
        EngineEventKind::Workflow(WorkflowEventKind::Failed { error: "e".to_string() }),
    );
    assert_eq!(translate_event(&e), translate_event(&e));
}

#[test]
fn terminal_classification() {
    assert!(!event_is_terminal(&event("p", "", EngineEventKind::Workflow(WorkflowEventKind::Start))));
    assert!(event_is_terminal(&event("p", "", EngineEventKind::Workflow(WorkflowEventKind::Succeeded))));
    assert!(event_is_terminal(&event(
        "p",
        "",
        EngineEventKind::Workflow(WorkflowEventKind::Failed { error: "e".to_string() })
    )));
    assert!(event_is_terminal(&event(
        "p",
        "",
        EngineEventKind::Workflow(WorkflowEventKind::Aborted { reason: "r".to_string() })
    )));
    assert!(!event_is_terminal(&event(
        "p",
        "",
        EngineEventKind::Workflow(WorkflowEventKind::Paused { reason: "r".to_string() })
    )));
    assert!(!event_is_terminal(&event("p", "n", EngineEventKind::Node(NodeEventKind::Running))));
    assert!(!event_is_terminal(&event("p", "n", EngineEventKind::Node(NodeEventKind::Succeeded))));
    assert!(!event_is_terminal(&event(
        "p",
        "n",
        EngineEventKind::Node(NodeEventKind::Error { reason: NodeErrorReason::Timeout })
    )));
}

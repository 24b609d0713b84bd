//! The stream service facade's decisions: validating a submitted workflow
//! definition, mapping engine failures to protocol conditions, and shaping
//! the stop response.
//!
//! The protocol-facing plumbing performs the outside work — deserializing
//! the payload, asking the engine to build and start a process — and hands
//! each result to these functions, which decide, exactly and totally, what
//! the caller sees: an invalid-argument condition for a malformed
//! definition before any engine interaction, an internal condition carrying
//! the engine's message when process construction fails, a stream
//! attachment otherwise, and for a stop request always a plain
//! success-or-message response, never a protocol-level error.

use vstd::prelude::*;

verus! {

/// A protocol-level status condition that fails a call before any stream
/// is established.
#[derive(Clone, Debug, PartialEq)]
pub enum StatusError {
    /// The request itself was malformed.
    InvalidArgument { message: String },
    /// The service failed while acting on a well-formed request.
    Internal { message: String },
}

/// The response to a stop request: always a value, never a protocol error.
#[derive(Clone, Debug, PartialEq)]
pub struct StopWorkflowResponse {
    /// Whether the engine stopped the process.
    pub success: bool,
    /// The engine's error text when it did not; empty when it did.
    pub err_msg: String,
}

/// What the facade does next while handling a submitted definition.
#[derive(Clone, Debug, PartialEq)]
pub enum RunWorkflowAction {
    /// Fail the call with the given status, touching the engine no
    /// further.
    Reject(StatusError),
    /// Ask the engine to build a process for the parsed definition.
    BuildProcess,
    /// Register the bridge's two callbacks for the new process, start it,
    /// and return the stream's consuming end to the client at once.
    AttachAndStart { pid: String },
}

/// The message text for a definition payload that did not parse.
pub open spec fn invalid_model_message(e: Seq<char>) -> Seq<char> {
    "Invalid workflow model: "@ + e
}

/// The message text for a process the engine could not build.
pub open spec fn build_failure_message(e: Seq<char>) -> Seq<char> {
    "Failed to build workflow process: "@ + e
}

/// Decides on the result of deserializing the definition payload: a parse
/// error rejects the call as invalid-argument, before any engine
/// interaction; a parsed definition goes on to process construction.
pub fn run_workflow_on_parse(parse: &Result<String, String>) -> (a: RunWorkflowAction)
    ensures
        parse is Ok <==> a is BuildProcess,
        parse matches Err(e) ==> (a matches RunWorkflowAction::Reject(s) && s matches
            StatusError::InvalidArgument { message } && message@ == invalid_model_message(e@)),
{
    match parse {
        Ok(_) => RunWorkflowAction::BuildProcess,
        Err(e) => RunWorkflowAction::Reject(
            StatusError::InvalidArgument {
                message: String::from_str("Invalid workflow model: ").concat(e.as_str()),
            },
        ),
    }
}

/// Decides on the engine's answer to process construction: a failure
/// rejects the call as internal, carrying the engine's message verbatim; a
/// built process, identified by the engine-assigned process id, has the
/// bridge attached and is started.
pub fn run_workflow_on_build(build: &Result<String, String>) -> (a: RunWorkflowAction)
    ensures
        build matches Ok(pid) ==> (a matches RunWorkflowAction::AttachAndStart { pid: p } && p@
            == pid@),
        build matches Err(e) ==> (a matches RunWorkflowAction::Reject(s) && s matches
            StatusError::Internal { message } && message@ == build_failure_message(e@)),
{
    match build {
        Ok(pid) => RunWorkflowAction::AttachAndStart { pid: pid.clone() },
        Err(e) => RunWorkflowAction::Reject(
            StatusError::Internal {
                message: String::from_str("Failed to build workflow process: ").concat(e.as_str()),
            },
        ),
    }
}

/// Shapes the engine's answer to a stop request into the response value:
/// success with an empty message exactly when the engine stopped the
/// process, failure carrying the engine's error text verbatim otherwise —
/// never a protocol-level error either way.
pub fn stop_response(stop: &Result<(), String>) -> (resp: StopWorkflowResponse)
    ensures
        resp.success <==> stop is Ok,
        stop is Ok ==> resp.err_msg@ == Seq::<char>::empty(),
        stop matches Err(e) ==> resp.err_msg@ == e@,
{
    match stop {
        Ok(_) => StopWorkflowResponse { success: true, err_msg: String::new() },
        Err(e) => StopWorkflowResponse { success: false, err_msg: e.clone() },
    }
}

} // verus!

use actflow_server::config::{
    Config, ConfigError, LogConfig, ServerConfig, log_level_spec_string, u16_to_decimal,
};
use actflow_server::facade::{
    RunWorkflowAction, StatusError, StopWorkflowResponse, run_workflow_on_build,
    run_workflow_on_parse, stop_response,
};
use actflow_server::shutdown::{Shutdown, WaitDecision, wait_decision};
use actflow_server::version::VersionInfo;

#[test]
fn malformed_definition_is_rejected_before_the_engine() {
    // A malformed payload yields an immediate invalid-argument status; the
    // action is a rejection, never a request to build, so the engine is
    // not touched.
    let a = run_workflow_on_parse(&Err("expected value at line 1".to_string()));
    assert_eq!(
        a,
        RunWorkflowAction::Reject(StatusError::InvalidArgument {
            message: "Invalid workflow model: expected value at line 1".to_string()
        })
    );
    let ok = run_workflow_on_parse(&Ok("wf1".to_string()));
    assert_eq!(ok, RunWorkflowAction::BuildProcess);
}

#[test]
fn build_failure_is_an_internal_status() {
    let a = run_workflow_on_build(&Err("Engine is not running".to_string()));
    assert_eq!(
        a,
        RunWorkflowAction::Reject(StatusError::Internal {
            message: "Failed to build workflow process: Engine is not running".to_string()
        })
    );
    let b = run_workflow_on_build(&Ok("proc-7".to_string()));
    assert_eq!(b, RunWorkflowAction::AttachAndStart { pid: "proc-7".to_string() });
}

#[test]
fn stop_unknown_process_returns_value_not_error() {
    // Stopping an unknown process id yields a well-formed response with
    // the engine's text, not a protocol-level error.
    let r = stop_response(&Err("Process p-unknown not found".to_string()));
    assert_eq!(
        r,
        StopWorkflowResponse {
            success: false,
            err_msg: "Process p-unknown not found".to_string()
        }
    );
    let ok = stop_response(&Ok(()));
    assert_eq!(ok, StopWorkflowResponse { success: true, err_msg: "".to_string() });
}

#[test]
fn shutdown_signal_is_idempotent() {
    let mut s = Shutdown::new();
    assert!(!s.is_terminated());
    s.shutdown();
    assert!(s.is_terminated());
    s.shutdown();
    s.shutdown();
    assert!(s.is_terminated());
    s.reset();
    assert!(!s.is_terminated());
    let d = Shutdown::default();
    assert!(!d.is_terminated());
}

#[test]
fn wait_protocol_decisions() {
    assert_eq!(wait_decision(true, true), WaitDecision::ResolveAtFirstCheck);
    // The signal fired between the first check and the subscription's
    // second check: the waiter resolves without suspending.
    assert_eq!(wait_decision(false, true), WaitDecision::ResolveAtSecondCheck);
    assert_eq!(wait_decision(false, false), WaitDecision::Suspend);
}

#[test]
fn config_defaults() {
    let c = Config::default();
    assert_eq!(c.async_worker_thread_number, 16);
    assert_eq!(c.server, ServerConfig { port: 0 });
    assert_eq!(c.log.level, "INFO");
    assert_eq!(c.log.third_party_log_level, "WARN");
    assert_eq!(c.log.log_file, "/var/log/prism/fluxon-engine/fluxon-engine.log");
    assert_eq!(c.log.retention, 365);
    let l = LogConfig::default();
    assert_eq!(l.level, "INFO");
}

#[test]
fn empty_log_file_becomes_the_default() {
    let mut c = Config::default();
    c.log.log_file = "".to_string();
    c.normalize_log_path("/srv/run");
    assert_eq!(c.log.log_file, "/var/log/prism/fluxon-engine/fluxon-engine.log");
}

#[test]
fn relative_log_file_is_anchored_at_the_working_directory() {
    let mut c = Config::default();
    c.log.log_file = "logs/service.log".to_string();
    c.normalize_log_path("/srv/run");
    assert_eq!(c.log.log_file, "/srv/run/logs/service.log");

    let mut d = Config::default();
    d.log.log_file = "service.log".to_string();
    d.normalize_log_path("/srv/run/");
    assert_eq!(d.log.log_file, "/srv/run/service.log");
}

#[test]
fn absolute_log_file_is_kept() {
    let mut c = Config::default();
    c.log.log_file = "/tmp/service.log".to_string();
    c.normalize_log_path("/srv/run");
    assert_eq!(c.log.log_file, "/tmp/service.log");
}

#[test]
fn config_error_messages() {
    assert_eq!(ConfigError::ConfigFileEmpty.message(), "config file is empty");
    assert_eq!(
        ConfigError::YamlConfigInvalid("bad key".to_string()).message(),
        "yaml config invalid: bad key"
    );
}

#[test]
fn listen_address_renders_port_in_decimal() {
    assert_eq!(ServerConfig { port: 0 }.listen_address(), "0.0.0.0:0");
    assert_eq!(ServerConfig { port: 8080 }.listen_address(), "0.0.0.0:8080");
    assert_eq!(ServerConfig { port: 65535 }.listen_address(), "0.0.0.0:65535");
    assert_eq!(u16_to_decimal(10), "10");
    assert_eq!(u16_to_decimal(305), "305");
}

#[test]
fn log_level_spec_string_shape() {
    assert_eq!(log_level_spec_string("WARN", "actflow_server", "INFO"), "WARN,actflow_server=INFO");
}

#[test]
fn version_info_renders_all_fields() {
    let v = VersionInfo {
        name: "actflow-server",
        version: "1.2.3",
        branch: Some("main"),
        commit_hash: None,
        compiler: "rustc 1.80.0",
        compile_time: "Tue, 01 Jul 2003 10:52:37 +0200",
    };
    let text = v.render("2003-07-01 10:52:37");
    assert_eq!(
        text,
        "Module Name:   actflow-server\n\
         Version:       1.2.3\n\
         Branch:        main\n\
         Commit Hash:   None\n\
         Compiler:      rustc 1.80.0\n\
         Compile Time:  2003-07-01 10:52:37"
    );
    // The local rendering goes through the calendar library; its shape
    // depends on the machine's time zone, so only its presence is checked.
    let local = v.display_text();
    assert!(local.starts_with("Module Name:   actflow-server\n"));
}

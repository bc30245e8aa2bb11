use ws2tcp_local_ffi::{
    config_text, start_error_message, CStrError, ErrorKind, FailureCause, HandleState,
    SettingsError, StartError, TaskEnd, Ws2TcpStatus, WS2TCP_ERROR_ALREADY_RUNNING,
    WS2TCP_ERROR_RUNTIME, WS2TCP_OK,
};

/// A stand-in for the runtime's task: its name.
type Task = &'static str;
/// A stand-in for the shutdown signal: a number.
type Signal = u32;

fn started() -> HandleState<Task, Signal> {
    let mut h = HandleState::new();
    assert_eq!(h.install("proxy", 7), WS2TCP_OK);
    h
}

#[test]
fn new_handle_is_stopped_without_error() {
    let h: HandleState<Task, Signal> = HandleState::new();
    assert_eq!(h.status(), Ws2TcpStatus::Stopped);
    assert!(!h.is_running());
    assert_eq!(h.last_error(), "");
    assert_eq!(h.last_error_kind(), ErrorKind::NoError);
    assert!(h.task().is_none());
}

#[test]
fn start_stop_lifecycle() {
    let mut h = started();
    assert_eq!(h.status(), Ws2TcpStatus::Running);
    assert_eq!(h.task(), Some(&"proxy"));
    let taken = h.take_for_stop();
    assert_eq!(taken, Some(("proxy", 7)));
    assert_eq!(h.finish_stop(Some(TaskEnd::Completed)), WS2TCP_OK);
    assert_eq!(h.status(), Ws2TcpStatus::Stopped);
    assert_eq!(h.last_error(), "");
    assert_eq!(h.last_error_kind(), ErrorKind::NoError);
}

#[test]
fn start_is_refused_while_running() {
    let mut h = started();
    assert_eq!(h.refuse_start(), WS2TCP_ERROR_ALREADY_RUNNING);
    assert_eq!(h.status(), Ws2TcpStatus::Running);
    assert_eq!(h.task(), Some(&"proxy"));
    assert_eq!(h.last_error(), "proxy is already running");
    assert_eq!(h.last_error_kind(), ErrorKind::AlreadyRunning);
}

#[test]
fn start_after_refusal_clears_the_error() {
    let mut h: HandleState<Task, Signal> = HandleState::new();
    assert_eq!(
        h.fail_start(StartError::InvalidSettings(SettingsError::ZeroBufferSize)),
        WS2TCP_ERROR_RUNTIME
    );
    assert_eq!(h.last_error(), "buffer_size must be greater than 0");
    assert_eq!(h.last_error_kind(), ErrorKind::InvalidConfig);
    assert_eq!(h.install("again", 1), WS2TCP_OK);
    assert_eq!(h.last_error(), "");
    assert_eq!(h.last_error_kind(), ErrorKind::NoError);
}

#[test]
fn stop_without_task_changes_nothing() {
    let mut h: HandleState<Task, Signal> = HandleState::new();
    h.fail_start(StartError::ConfigParse("eof".to_owned()));
    assert_eq!(h.take_for_stop(), None);
    assert_eq!(h.finish_stop(None), WS2TCP_OK);
    assert_eq!(h.last_error(), "failed to parse config_json: eof");
    assert_eq!(h.status(), Ws2TcpStatus::Stopped);
}

#[test]
fn failed_stop_reports_the_error() {
    let mut h = started();
    h.take_for_stop();
    let code = h.finish_stop(Some(TaskEnd::Failed(
        FailureCause::Other,
        "failed to bind 127.0.0.1:3128: address in use".to_owned(),
    )));
    assert_eq!(code, WS2TCP_ERROR_RUNTIME);
    assert_eq!(h.last_error(), "failed to bind 127.0.0.1:3128: address in use");
    assert_eq!(h.last_error_kind(), ErrorKind::Runtime);
    assert_eq!(h.status(), Ws2TcpStatus::Stopped);
}

#[test]
fn unfinished_task_is_left_running() {
    let mut h = started();
    assert_eq!(h.take_finished(false), None);
    assert_eq!(h.status(), Ws2TcpStatus::Running);
}

#[test]
fn finished_task_is_taken_out() {
    let mut h = started();
    assert_eq!(h.take_finished(true), Some("proxy"));
    assert_eq!(h.status(), Ws2TcpStatus::Stopped);
    h.record_task_end(TaskEnd::Completed);
    assert_eq!(h.last_error(), "");
    assert_eq!(h.last_error_kind(), ErrorKind::NoError);
}

#[test]
fn rejected_credentials_are_reported_as_auth_failure() {
    let mut h = started();
    assert_eq!(h.take_finished(true), Some("proxy"));
    let message = "gateway rejected the Basic Auth credentials (401 Unauthorized); check \
                   --basic-auth or WS2TCP_LOCAL_BASIC_AUTH";
    h.record_task_end(TaskEnd::Failed(FailureCause::Unauthorized, message.to_owned()));
    assert_eq!(h.status(), Ws2TcpStatus::Stopped);
    assert_eq!(h.last_error(), message);
    assert_eq!(h.last_error_kind(), ErrorKind::AuthFailed);
    assert_eq!(h.last_error_kind().code(), 3);
}

#[test]
fn unusable_gateway_is_reported() {
    let mut h = started();
    h.take_finished(true);
    h.record_task_end(TaskEnd::Failed(
        FailureCause::GatewayUnavailable,
        "gateway health check failed: connection refused".to_owned(),
    ));
    assert_eq!(h.last_error_kind(), ErrorKind::GatewayUnavailable);
}

#[test]
fn join_failure_is_reported() {
    let mut h = started();
    h.take_finished(true);
    h.record_task_end(TaskEnd::JoinFailed("task 3 panicked".to_owned()));
    assert_eq!(h.last_error(), "proxy task join failed: task 3 panicked");
    assert_eq!(h.last_error_kind(), ErrorKind::Runtime);
}

#[test]
fn recorded_errors_hold_no_nul() {
    let mut h = started();
    h.take_finished(true);
    h.record_task_end(TaskEnd::Failed(FailureCause::Other, "bad\0text".to_owned()));
    assert_eq!(h.last_error(), "bad\\0text");
    assert!(!h.last_error().contains('\0'));
}

#[test]
fn start_error_messages() {
    assert_eq!(
        start_error_message(&StartError::ConfigMissing(CStrError::NullPointer)),
        "config_json is required: null string pointer"
    );
    assert_eq!(
        start_error_message(&StartError::ConfigMissing(CStrError::NotUtf8("bad".to_owned()))),
        "config_json is required: string pointer is not valid UTF-8: bad"
    );
    assert_eq!(
        start_error_message(&StartError::InvalidSettings(SettingsError::ZeroRuleRefreshInterval)),
        "rule_refresh_interval_secs must be greater than 0"
    );
    assert_eq!(
        start_error_message(&StartError::Rejected("invalid header name \"a b\"".to_owned())),
        "invalid header name \"a b\""
    );
    assert_eq!(
        start_error_message(&StartError::AlreadyRunning),
        "proxy is already running"
    );
}

#[test]
fn already_running_start_failure_has_runtime_code() {
    let mut h = started();
    assert_eq!(h.fail_start(StartError::AlreadyRunning), WS2TCP_ERROR_RUNTIME);
    assert_eq!(h.last_error(), "proxy is already running");
    assert_eq!(h.last_error_kind(), ErrorKind::AlreadyRunning);
    assert_eq!(h.status(), Ws2TcpStatus::Running);
}

#[test]
fn config_text_reads_the_argument() {
    assert_eq!(
        config_text(None),
        Err(StartError::ConfigMissing(CStrError::NullPointer))
    );
    assert_eq!(config_text(Some(b"{}")), Ok("{}".to_owned()));
    assert!(matches!(
        config_text(Some(&[0x80])),
        Err(StartError::ConfigMissing(CStrError::NotUtf8(_)))
    ));
}

#[test]
fn begin_start_refuses_while_the_task_runs() {
    let mut h = started();
    assert_eq!(h.begin_start(false), Err(WS2TCP_ERROR_ALREADY_RUNNING));
    assert_eq!(h.status(), Ws2TcpStatus::Running);
    assert_eq!(h.last_error(), "proxy is already running");
    assert_eq!(h.last_error_kind(), ErrorKind::AlreadyRunning);
}

#[test]
fn begin_start_takes_out_a_finished_task() {
    let mut h = started();
    assert_eq!(h.begin_start(true), Ok(Some("proxy")));
    assert_eq!(h.status(), Ws2TcpStatus::Stopped);
    let mut idle: HandleState<Task, Signal> = HandleState::new();
    assert_eq!(idle.begin_start(false), Ok(None));
    assert_eq!(idle.begin_start(true), Ok(None));
}

#[test]
fn claim_start_fails_while_the_task_runs() {
    let mut h = started();
    assert_eq!(h.claim_start(false), Err(WS2TCP_ERROR_RUNTIME));
    assert_eq!(h.status(), Ws2TcpStatus::Running);
    assert_eq!(h.last_error(), "proxy is already running");
    assert_eq!(h.last_error_kind(), ErrorKind::AlreadyRunning);
}

#[test]
fn claim_start_leaves_room_for_the_new_task() {
    let mut h = started();
    assert_eq!(h.claim_start(true), Ok(Some("proxy")));
    assert!(!h.is_running());
    assert_eq!(h.install("next", 2), WS2TCP_OK);
    assert_eq!(h.task(), Some(&"next"));
}

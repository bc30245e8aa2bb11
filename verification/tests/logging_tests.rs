use ws2tcp_local_ffi::{format_event_line, log_filter, LogVisitor};

#[test]
fn message_field_is_written_alone() {
    let mut v = LogVisitor::new();
    v.record_value("message", "proxy task stopped");
    assert_eq!(v.fields(), &vec!["proxy task stopped".to_owned()]);
}

#[test]
fn other_fields_are_written_as_name_value() {
    let mut v = LogVisitor::new();
    v.record_value("message", "gateway health check passed");
    v.record_value("token_received", "false");
    assert_eq!(
        v.fields(),
        &vec![
            "gateway health check passed".to_owned(),
            "token_received=false".to_owned()
        ]
    );
    assert_eq!(
        v.event_line("INFO", "ws2tcp_local_core::service"),
        "INFO ws2tcp_local_core::service: gateway health check passed token_received=false"
    );
}

#[test]
fn event_without_fields_is_level_and_target() {
    let v = LogVisitor::new();
    assert_eq!(v.event_line("WARN", "ws2tcp_local_ffi"), "WARN ws2tcp_local_ffi");
    assert_eq!(format_event_line("DEBUG", "t", &Vec::new()), "DEBUG t");
}

#[test]
fn event_with_one_field() {
    assert_eq!(
        format_event_line("INFO", "t", &vec!["stopping proxy".to_owned()]),
        "INFO t: stopping proxy"
    );
}

#[test]
fn log_filter_prefers_given_level_then_environment() {
    assert_eq!(log_filter(Some("debug"), Some("trace".to_owned())), "debug");
    assert_eq!(log_filter(None, Some("trace".to_owned())), "trace");
    assert_eq!(log_filter(None, None), "ws2tcp_local=info");
    assert_eq!(
        log_filter(Some("ws2tcp_local=info,ws2tcp_local_ffi=info"), None),
        "ws2tcp_local=info,ws2tcp_local_ffi=info"
    );
}

//! Verified core of the C ABI adapter that embeds the ws2tcp-local proxy.
//!
//! The adapter keeps, for each handle, the running proxy task and the last error that C
//! reads; it turns `config_json` into proxy settings, and formats the log lines that go to
//! the C log callback. This crate holds those rules; the C functions themselves, the
//! runtime and the proxy are driven from outside it.

mod codes;
mod cstr;
mod handle;
mod logging;
mod settings;
mod text;

pub use codes::{
    error_kind_code_of, ffi_error_without_handle, logging_init_code, status_code_of, ErrorKind,
    Ws2TcpStatus, WS2TCP_ERROR_ALREADY_RUNNING, WS2TCP_ERROR_INVALID_ARGUMENT,
    WS2TCP_ERROR_NULL_HANDLE, WS2TCP_ERROR_RUNTIME, WS2TCP_OK,
};
pub use cstr::{
    cstr_error_message, cstr_error_text, optional_c_str, required_c_str, utf8_error_text,
    CStrError,
};
pub use handle::{
    after_install, after_refusal, after_start_failure, after_stop, after_take, after_task_end,
    cause_kind, config_text, initial_view, law_failed_start_keeps_task, law_failed_task_is_reported,
    law_finished_task_reports_stopped, law_recorded_errors_are_c_strings, law_start_refused_while_running,
    law_start_then_stop, law_started_proxy_runs, law_stop_fails_on_any_task_error, law_stop_without_task_is_harmless,
    law_stopped_handle_reports_stopped, law_unfinished_task_keeps_running, reaped, reaped_task,
    start_error_kind, start_error_message, start_error_text, start_settings, status_of, stop_code,
    task_end_report, with_error, FailureCause, HandleState, HandleView, StartError, TaskEnd,
};
pub use logging::{
    event_line, field_text, format_event_line, law_space_joined_appends, law_space_joined_holds_each_part,
    law_space_joined_len, log_filter, log_filter_spec, space_joined, texts_view, total_len, LogVisitor,
};
pub use settings::{
    buffer_size_of, default_buffer_size_value, default_listen_text, default_refresh_secs_value,
    default_user_agent_text, gateway_headers, law_any_user_agent_overrides,
    law_default_user_agent_unless_overridden, law_default_user_agent_without_override,
    law_given_settings_are_kept, law_only_zero_values_are_refused, gateway_headers_spec, headers_view, is_user_agent_name,
    names_user_agent, opt_text, overrides_user_agent, user_agent_lower, user_agent_upper,
    proxy_mode_name, refresh_secs_of, resolve_settings, resolved_from, settings_error_text,
    settings_problem, startup_line, startup_log_line, FfiSettings, ProxyMode, Settings,
    SettingsError,
};
pub use text::{
    c_string_lossy, escape_nuls, joined, lemma_escape_nuls_keeps_nul_free,
    lemma_escape_nuls_nul_free, nul_free, same_text,
};

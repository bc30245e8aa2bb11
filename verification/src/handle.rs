//! The state behind a proxy handle: the running task, and the last error that C can read.
//!
//! The task and its shutdown signal are values of the embedding runtime; this state only
//! holds them. Starting, stopping and watching the task are written as steps that the
//! runtime calls in turn, each with the state it leaves behind.

use vstd::prelude::*;
use vstd::utf8::{decode_utf8, valid_utf8};

use crate::codes::{
    ErrorKind, Ws2TcpStatus, WS2TCP_ERROR_ALREADY_RUNNING, WS2TCP_ERROR_RUNTIME, WS2TCP_OK,
};
use crate::cstr::{cstr_error_message, cstr_error_text, required_c_str, utf8_error_text, CStrError};
use crate::settings::{
    resolve_settings, resolved_from, settings_error_text, settings_problem, FfiSettings, Settings,
    SettingsError,
};
use crate::text::{
    c_string_lossy, escape_nuls, joined, lemma_escape_nuls_keeps_nul_free, lemma_escape_nuls_nul_free,
    nul_free,
};

verus! {

/// Why a proxy task ended with an error, as far as the gateway check tells.
#[derive(Debug, Clone, Copy, PartialEq, Eq, Structural)]
pub enum FailureCause {
    /// The gateway answered `401 Unauthorized`.
    Unauthorized,
    /// The gateway could not be reached, or did not answer like a gateway.
    GatewayUnavailable,
    /// Anything else.
    Other,
}

/// How a proxy task ended.
#[derive(Debug, Clone, PartialEq, Eq)]
pub enum TaskEnd {
    /// The proxy stopped without error.
    Completed,
    /// The proxy stopped with an error: why, and its message.
    Failed(FailureCause, String),
    /// The task could not be joined; the payload says why.
    JoinFailed(String),
}

/// Why a start was refused.
#[derive(Debug, Clone, PartialEq, Eq)]
pub enum StartError {
    /// `config_json` could not be read.
    ConfigMissing(CStrError),
    /// `config_json` is not JSON of the expected shape; the payload says why.
    ConfigParse(String),
    /// `config_json` describes settings that cannot be used.
    InvalidSettings(SettingsError),
    /// The proxy refused the settings; the payload is its message.
    Rejected(String),
    /// The proxy already runs.
    AlreadyRunning,
}

/// The kind of error that a task end reports.
pub open spec fn cause_kind(cause: FailureCause) -> ErrorKind {
    match cause {
        FailureCause::Unauthorized => ErrorKind::AuthFailed,
        FailureCause::GatewayUnavailable => ErrorKind::GatewayUnavailable,
        FailureCause::Other => ErrorKind::Runtime,
    }
}

/// The error that a task end reports, as message and kind; `None` when it ended well.
pub open spec fn task_end_report(end: TaskEnd) -> Option<(Seq<char>, ErrorKind)> {
    match end {
        TaskEnd::Completed => None,
        TaskEnd::Failed(cause, message) => Some((message@, cause_kind(cause))),
        TaskEnd::JoinFailed(detail) => Some(("proxy task join failed: "@ + detail@, ErrorKind::Runtime)),
    }
}

/// The message of a refused start.
pub open spec fn start_error_text(err: StartError) -> Seq<char> {
    match err {
        StartError::ConfigMissing(e) => "config_json is required: "@ + cstr_error_text(e),
        StartError::ConfigParse(detail) => "failed to parse config_json: "@ + detail@,
        StartError::InvalidSettings(e) => settings_error_text(e),
        StartError::Rejected(detail) => detail@,
        StartError::AlreadyRunning => "proxy is already running"@,
    }
}

/// The kind of a refused start.
pub open spec fn start_error_kind(err: StartError) -> ErrorKind {
    match err {
        StartError::AlreadyRunning => ErrorKind::AlreadyRunning,
        _ => ErrorKind::InvalidConfig,
    }
}

/// The message of a refused start, as text.
pub fn start_error_message(err: &StartError) -> (res: String)
    ensures
        res@ == start_error_text(*err),
{
    match err {
        StartError::ConfigMissing(e) => {
            let detail = cstr_error_message(e);
            joined("config_json is required: ", detail.as_str())
        },
        StartError::ConfigParse(detail) => joined("failed to parse config_json: ", detail.as_str()),
        StartError::InvalidSettings(e) => e.message(),
        StartError::Rejected(detail) => detail.as_str().to_owned(),
        StartError::AlreadyRunning => "proxy is already running".to_owned(),
    }
}

/// What a handle holds: the running task with its shutdown signal, the last error as C
/// will read it, and what that error was about.
pub struct HandleView<T, S> {
    pub running: Option<(T, S)>,
    pub last_error: Seq<char>,
    pub kind: ErrorKind,
}

/// A new handle: nothing runs and no error was recorded.
pub open spec fn initial_view<T, S>() -> HandleView<T, S> {
    HandleView { running: None, last_error: Seq::empty(), kind: ErrorKind::NoError }
}

/// What `ws2tcp_status` reports for a handle.
pub open spec fn status_of<T, S>(v: HandleView<T, S>) -> Ws2TcpStatus {
    if v.running is Some {
        Ws2TcpStatus::Running
    } else {
        Ws2TcpStatus::Stopped
    }
}

/// The handle with `text` recorded as its last error, of kind `kind`.
pub open spec fn with_error<T, S>(v: HandleView<T, S>, text: Seq<char>, kind: ErrorKind) -> HandleView<T, S> {
    HandleView { running: v.running, last_error: escape_nuls(text), kind }
}

/// The handle once a task that `finished` says has ended is taken out of it.
pub open spec fn reaped<T, S>(v: HandleView<T, S>, finished: bool) -> HandleView<T, S> {
    if finished && v.running is Some {
        HandleView { running: None, ..v }
    } else {
        v
    }
}

/// The task handed back for joining when it `finished`.
pub open spec fn reaped_task<T, S>(v: HandleView<T, S>, finished: bool) -> Option<T> {
    match v.running {
        Some((task, _)) => if finished { Some(task) } else { None },
        None => None,
    }
}

/// The handle once the end of its task is recorded.
pub open spec fn after_task_end<T, S>(v: HandleView<T, S>, end: TaskEnd) -> HandleView<T, S> {
    match task_end_report(end) {
        None => v,
        Some((text, kind)) => with_error(v, text, kind),
    }
}

/// The handle once a start was refused because the proxy runs.
pub open spec fn after_refusal<T, S>(v: HandleView<T, S>) -> HandleView<T, S> {
    with_error(v, "proxy is already running"@, ErrorKind::AlreadyRunning)
}

/// The handle once a start failed.
pub open spec fn after_start_failure<T, S>(v: HandleView<T, S>, err: StartError) -> HandleView<T, S> {
    with_error(v, start_error_text(err), start_error_kind(err))
}

/// The handle once a task was started.
pub open spec fn after_install<T, S>(v: HandleView<T, S>, task: T, shutdown: S) -> HandleView<T, S> {
    HandleView { running: Some((task, shutdown)), last_error: Seq::empty(), kind: ErrorKind::NoError }
}

/// The handle once its task was taken out to be stopped.
pub open spec fn after_take<T, S>(v: HandleView<T, S>) -> HandleView<T, S> {
    HandleView { running: None, ..v }
}

/// The handle once a stop is over: `end` is how the stopped task ended, if there was one.
pub open spec fn after_stop<T, S>(v: HandleView<T, S>, end: Option<TaskEnd>) -> HandleView<T, S> {
    match end {
        None => v,
        Some(e) => after_task_end(v, e),
    }
}

/// What `ws2tcp_stop` answers once the stop is over.
pub open spec fn stop_code(end: Option<TaskEnd>) -> i32 {
    match end {
        Some(e) => if task_end_report(e) is Some { WS2TCP_ERROR_RUNTIME } else { WS2TCP_OK },
        None => WS2TCP_OK,
    }
}

/// The state behind a proxy handle.
pub struct HandleState<T, S> {
    running: Option<(T, S)>,
    last_error: String,
    kind: ErrorKind,
}

impl<T, S> View for HandleState<T, S> {
    type V = HandleView<T, S>;

    closed spec fn view(&self) -> HandleView<T, S> {
        HandleView { running: self.running, last_error: self.last_error@, kind: self.kind }
    }
}

impl<T, S> HandleState<T, S> {
    /// C reads the last error as a C string: it never holds a NUL.
    #[verifier::type_invariant]
    closed spec fn last_error_is_c_string(self) -> bool {
        nul_free(self.last_error@)
    }

    /// A new handle: nothing runs and no error was recorded.
    pub fn new() -> (h: Self)
        ensures
            h@ == initial_view::<T, S>(),
    {
        HandleState { running: None, last_error: String::new(), kind: ErrorKind::NoError }
    }

    /// What `ws2tcp_status` reports.
    pub fn status(&self) -> (res: Ws2TcpStatus)
        ensures
            res == status_of(self@),
    {
        match &self.running {
            Some(_) => Ws2TcpStatus::Running,
            None => Ws2TcpStatus::Stopped,
        }
    }

    /// Whether a task runs.
    pub fn is_running(&self) -> (res: bool)
        ensures
            res == (self@.running is Some),
    {
        self.running.is_some()
    }

    /// The running task, to ask whether it has finished.
    pub fn task(&self) -> (res: Option<&T>)
        ensures
            match self@.running {
                Some(r) => res == Some(&r.0),
                None => res is None,
            },
    {
        match &self.running {
            Some(r) => Some(&r.0),
            None => None,
        }
    }

    /// The last error, as C reads it.
    pub fn last_error(&self) -> (res: &str)
        ensures
            res@ == self@.last_error,
            nul_free(res@),
    {
        proof {
            use_type_invariant(self);
        }
        self.last_error.as_str()
    }

    /// What the last error was about.
    pub fn last_error_kind(&self) -> (res: ErrorKind)
        ensures
            res == self@.kind,
    {
        self.kind
    }

    /// Records `text` as the last error.
    fn set_error(&mut self, text: &str, kind: ErrorKind)
        ensures
            final(self)@ == with_error(old(self)@, text@, kind),
    {
        let escaped = c_string_lossy(text);
        self.last_error = escaped;
        self.kind = kind;
    }

    /// Takes out the task when `finished` says it has ended, so that it can be joined;
    /// the shutdown signal is dropped with it.
    pub fn take_finished(&mut self, finished: bool) -> (res: Option<T>)
        ensures
            final(self)@ == reaped(old(self)@, finished),
            res == reaped_task(old(self)@, finished),
    {
        if finished && self.running.is_some() {
            match self.take_running() {
                Some((task, _shutdown)) => Some(task),
                None => None,
            }
        } else {
            None
        }
    }

    /// Records how a task that was taken out ended.
    pub fn record_task_end(&mut self, end: TaskEnd)
        ensures
            final(self)@ == after_task_end(old(self)@, end),
    {
        match end {
            TaskEnd::Completed => {},
            TaskEnd::Failed(cause, message) => {
                let kind = match cause {
                    FailureCause::Unauthorized => ErrorKind::AuthFailed,
                    FailureCause::GatewayUnavailable => ErrorKind::GatewayUnavailable,
                    FailureCause::Other => ErrorKind::Runtime,
                };
                self.set_error(message.as_str(), kind);
            },
            TaskEnd::JoinFailed(detail) => {
                let text = joined("proxy task join failed: ", detail.as_str());
                self.set_error(text.as_str(), ErrorKind::Runtime);
            },
        }
    }

    /// The first step of `ws2tcp_start`: a task that `finished` says has ended is taken out
    /// (and handed back, to be joined); a task that still runs refuses the start with
    /// `WS2TCP_ERROR_ALREADY_RUNNING`, saying so in the last error.
    pub fn begin_start(&mut self, finished: bool) -> (res: Result<Option<T>, i32>)
        ensures
            old(self)@.running is Some && !finished ==> {
                &&& res == Err::<Option<T>, i32>(WS2TCP_ERROR_ALREADY_RUNNING)
                &&& final(self)@ == after_refusal(old(self)@)
            },
            !(old(self)@.running is Some && !finished) ==> {
                &&& res == Ok::<Option<T>, i32>(reaped_task(old(self)@, finished))
                &&& final(self)@ == reaped(old(self)@, finished)
                &&& final(self)@.running is None
            },
    {
        if self.running.is_some() && !finished {
            Err(self.refuse_start())
        } else {
            Ok(self.take_finished(finished))
        }
    }

    /// The step of a start once its settings are ready, right before the task is spawned:
    /// a task that `finished` says has ended is taken out (and handed back, to be joined);
    /// a task that still runs fails the start with `WS2TCP_ERROR_RUNTIME`, the last error
    /// saying that the proxy is already running. On `Ok` nothing runs, so the new task can
    /// be installed.
    pub fn claim_start(&mut self, finished: bool) -> (res: Result<Option<T>, i32>)
        ensures
            old(self)@.running is Some && !finished ==> {
                &&& res == Err::<Option<T>, i32>(WS2TCP_ERROR_RUNTIME)
                &&& final(self)@ == after_start_failure(old(self)@, StartError::AlreadyRunning)
            },
            !(old(self)@.running is Some && !finished) ==> {
                &&& res == Ok::<Option<T>, i32>(reaped_task(old(self)@, finished))
                &&& final(self)@ == reaped(old(self)@, finished)
                &&& final(self)@.running is None
            },
    {
        if self.running.is_some() && !finished {
            Err(self.fail_start(StartError::AlreadyRunning))
        } else {
            Ok(self.take_finished(finished))
        }
    }

    /// Refuses a start because the proxy runs, and says so in the last error.
    pub fn refuse_start(&mut self) -> (code: i32)
        ensures
            final(self)@ == after_refusal(old(self)@),
            code == WS2TCP_ERROR_ALREADY_RUNNING,
    {
        self.set_error("proxy is already running", ErrorKind::AlreadyRunning);
        WS2TCP_ERROR_ALREADY_RUNNING
    }

    /// Records why a start failed.
    pub fn fail_start(&mut self, err: StartError) -> (code: i32)
        ensures
            final(self)@ == after_start_failure(old(self)@, err),
            code == WS2TCP_ERROR_RUNTIME,
    {
        let text = start_error_message(&err);
        self.set_error(text.as_str(), start_error_kind_of(&err));
        WS2TCP_ERROR_RUNTIME
    }

    /// Keeps a task that was just started, with its shutdown signal; the last error is
    /// cleared.
    pub fn install(&mut self, task: T, shutdown: S) -> (code: i32)
        requires
            old(self)@.running is None,
        ensures
            final(self)@ == after_install(old(self)@, task, shutdown),
            code == WS2TCP_OK,
    {
        proof {
            use_type_invariant(&*self);
        }
        self.running = Some((task, shutdown));
        self.last_error = String::new();
        self.kind = ErrorKind::NoError;
        WS2TCP_OK
    }

    /// Takes out the task and its shutdown signal to stop it.
    pub fn take_for_stop(&mut self) -> (res: Option<(T, S)>)
        ensures
            final(self)@ == after_take(old(self)@),
            res == old(self)@.running,
    {
        self.take_running()
    }

    /// Takes the task and its shutdown signal out of the handle.
    fn take_running(&mut self) -> (res: Option<(T, S)>)
        ensures
            final(self)@ == after_take(old(self)@),
            res == old(self)@.running,
    {
        proof {
            use_type_invariant(&*self);
        }
        let mut slot: Option<(T, S)> = None;
        std::mem::swap(&mut slot, &mut self.running);
        slot
    }

    /// Records how a stopped task ended, `None` when there was no task, and answers
    /// `ws2tcp_stop`.
    pub fn finish_stop(&mut self, end: Option<TaskEnd>) -> (code: i32)
        ensures
            final(self)@ == after_stop(old(self)@, end),
            code == stop_code(end),
            end matches Some(TaskEnd::Failed(_, _)) ==> code == WS2TCP_ERROR_RUNTIME,
            end matches Some(TaskEnd::JoinFailed(_)) ==> code == WS2TCP_ERROR_RUNTIME,
            (end is None || end == Some(TaskEnd::Completed)) ==> code == WS2TCP_OK,
            end matches Some(TaskEnd::Failed(_, m)) ==> final(self)@.last_error == escape_nuls(m@),
            final(self)@.running == old(self)@.running,
    {
        match end {
            None => WS2TCP_OK,
            Some(TaskEnd::Completed) => WS2TCP_OK,
            Some(e) => {
                self.record_task_end(e);
                WS2TCP_ERROR_RUNTIME
            },
        }
    }
}

/// Reads `config_json`, which a start needs: `None` is a null pointer, `Some` the bytes
/// of the C string.
pub fn config_text(bytes: Option<&[u8]>) -> (res: Result<String, StartError>)
    ensures
        match bytes {
            None => res == Err::<String, StartError>(StartError::ConfigMissing(CStrError::NullPointer)),
            Some(b) => if valid_utf8(b@) {
                res matches Ok(r) && r@ == decode_utf8(b@)
            } else {
                res matches Err(StartError::ConfigMissing(CStrError::NotUtf8(t)))
                    && t@ == utf8_error_text(b@)
            },
        },
{
    match required_c_str(bytes) {
        Ok(s) => Ok(s),
        Err(e) => Err(StartError::ConfigMissing(e)),
    }
}

/// The settings a start runs with, from what parsing `config_json` gave: the parsed
/// fields, or the parser's message.
pub fn start_settings(parsed: Result<FfiSettings, String>) -> (res: Result<Settings, StartError>)
    ensures
        match parsed {
            Err(detail) => res == Err::<Settings, StartError>(StartError::ConfigParse(detail)),
            Ok(raw) => match settings_problem(raw) {
                Some(e) => res == Err::<Settings, StartError>(StartError::InvalidSettings(e)),
                None => res matches Ok(s) && resolved_from(s, raw),
            },
        },
{
    match parsed {
        Err(detail) => Err(StartError::ConfigParse(detail)),
        Ok(raw) => match resolve_settings(raw) {
            Ok(s) => Ok(s),
            Err(e) => Err(StartError::InvalidSettings(e)),
        },
    }
}

/// The kind of a refused start.
fn start_error_kind_of(err: &StartError) -> (res: ErrorKind)
    ensures
        res == start_error_kind(*err),
{
    match err {
        StartError::AlreadyRunning => ErrorKind::AlreadyRunning,
        _ => ErrorKind::InvalidConfig,
    }
}

/// A proxy that was started on a stopped handle runs, and the handle reports no error.
pub proof fn law_started_proxy_runs<T, S>(v: HandleView<T, S>, task: T, shutdown: S)
    requires
        v.running is None,
    ensures
        status_of(after_install(v, task, shutdown)) == Ws2TcpStatus::Running,
        after_install(v, task, shutdown).last_error == Seq::<char>::empty(),
        after_install(v, task, shutdown).kind == ErrorKind::NoError,
{
}

/// A start on a running handle leaves the running task alone, and the last error says
/// that the proxy is already running.
pub proof fn law_start_refused_while_running<T, S>(v: HandleView<T, S>)
    requires
        v.running is Some,
    ensures
        after_refusal(v).running == v.running,
        status_of(after_refusal(v)) == Ws2TcpStatus::Running,
        after_refusal(v).last_error == "proxy is already running"@,
        after_refusal(v).kind == ErrorKind::AlreadyRunning,
{
    reveal_strlit("proxy is already running");
    lemma_escape_nuls_keeps_nul_free("proxy is already running"@);
}

/// A failed start changes nothing but the last error: a running task keeps running, a
/// stopped handle stays stopped.
pub proof fn law_failed_start_keeps_task<T, S>(v: HandleView<T, S>, err: StartError)
    ensures
        after_start_failure(v, err).running == v.running,
        status_of(after_start_failure(v, err)) == status_of(v),
        after_start_failure(v, err).last_error == escape_nuls(start_error_text(err)),
        after_start_failure(v, err).kind == start_error_kind(err),
{
}

/// After a stop the handle reports `Stopped`, however the task ended.
pub proof fn law_stopped_handle_reports_stopped<T, S>(v: HandleView<T, S>, end: Option<TaskEnd>)
    ensures
        status_of(after_stop(after_take(v), end)) == Ws2TcpStatus::Stopped,
{
}

/// Stopping a handle that runs nothing changes nothing and succeeds.
pub proof fn law_stop_without_task_is_harmless<T, S>(v: HandleView<T, S>)
    requires
        v.running is None,
    ensures
        after_stop(after_take(v), None) == v,
        stop_code(None) == WS2TCP_OK,
{
}

/// A task that has not finished is left running when the handle is looked at.
pub proof fn law_unfinished_task_keeps_running<T, S>(v: HandleView<T, S>)
    ensures
        reaped(v, false) == v,
        reaped_task(v, false) is None,
{
}

/// Once a finished task is taken out and its end recorded, the handle reports `Stopped`.
pub proof fn law_finished_task_reports_stopped<T, S>(v: HandleView<T, S>, end: TaskEnd)
    ensures
        status_of(after_task_end(reaped(v, true), end)) == Ws2TcpStatus::Stopped,
{
}

/// When the proxy stops on its own with an error, the handle reports `Stopped`, the last
/// error holds the message, and the kind says why: a gateway that rejected the
/// credentials gives `AuthFailed`.
pub proof fn law_failed_task_is_reported<T, S>(v: HandleView<T, S>, cause: FailureCause, message: String)
    requires
        v.running is Some,
    ensures
        ({
            let w = after_task_end(reaped(v, true), TaskEnd::Failed(cause, message));
            &&& status_of(w) == Ws2TcpStatus::Stopped
            &&& w.last_error == escape_nuls(message@)
            &&& w.kind == cause_kind(cause)
            &&& (cause == FailureCause::Unauthorized ==> w.kind == ErrorKind::AuthFailed)
        }),
{
}

/// Starting and then stopping a proxy that ends well hands back the task and its shutdown
/// signal, answers `WS2TCP_OK`, and leaves a stopped handle without error.
pub proof fn law_start_then_stop<T, S>(v: HandleView<T, S>, task: T, shutdown: S)
    requires
        v.running is None,
    ensures
        ({
            let started = after_install(v, task, shutdown);
            let stopped = after_stop(after_take(started), Some(TaskEnd::Completed));
            &&& started.running == Some((task, shutdown))
            &&& status_of(stopped) == Ws2TcpStatus::Stopped
            &&& stopped.last_error == Seq::<char>::empty()
            &&& stopped.kind == ErrorKind::NoError
            &&& stop_code(Some(TaskEnd::Completed)) == WS2TCP_OK
        }),
{
}

/// A stop fails exactly when the stopped task ended with an error, whatever its cause:
/// `WS2TCP_ERROR_RUNTIME` for any failure or failed join, `WS2TCP_OK` when it ended well or
/// there was no task; the error's message becomes the last error.
pub proof fn law_stop_fails_on_any_task_error<T, S>(
    v: HandleView<T, S>,
    cause: FailureCause,
    message: String,
    detail: String,
)
    ensures
        stop_code(Some(TaskEnd::Failed(cause, message))) == WS2TCP_ERROR_RUNTIME,
        stop_code(Some(TaskEnd::JoinFailed(detail))) == WS2TCP_ERROR_RUNTIME,
        stop_code(Some(TaskEnd::Completed)) == WS2TCP_OK,
        stop_code(None) == WS2TCP_OK,
        after_stop(v, Some(TaskEnd::Failed(cause, message))).last_error == escape_nuls(message@),
        after_stop(v, Some(TaskEnd::Failed(cause, message))).running == v.running,
        after_stop(v, Some(TaskEnd::Completed)) == v,
{
}

/// Whatever is recorded as the last error, C can read it whole: it holds no NUL.
pub proof fn law_recorded_errors_are_c_strings<T, S>(v: HandleView<T, S>, text: Seq<char>, kind: ErrorKind)
    ensures
        nul_free(with_error(v, text, kind).last_error),
{
    lemma_escape_nuls_nul_free(text);
}

} // verus!

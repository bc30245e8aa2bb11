//! The numbers that the C interface answers with.

use vstd::prelude::*;

use crate::cstr::CStrError;

verus! {

/// The call did what was asked.
pub const WS2TCP_OK: i32 = 0;
/// The handle argument was null.
pub const WS2TCP_ERROR_NULL_HANDLE: i32 = 1;
/// A string argument could not be read.
pub const WS2TCP_ERROR_INVALID_ARGUMENT: i32 = 2;
/// `ws2tcp_start` was called while the proxy runs.
pub const WS2TCP_ERROR_ALREADY_RUNNING: i32 = 3;
/// The call failed; the handle's last error says why.
pub const WS2TCP_ERROR_RUNTIME: i32 = 4;

/// Whether a handle's proxy task runs.
#[derive(Debug, Clone, Copy, PartialEq, Eq, Structural)]
pub enum Ws2TcpStatus {
    Stopped,
    Running,
}

/// The number C sees for a status.
pub open spec fn status_code_of(status: Ws2TcpStatus) -> i32 {
    match status {
        Ws2TcpStatus::Stopped => 0,
        Ws2TcpStatus::Running => 1,
    }
}

impl Ws2TcpStatus {
    /// The number C sees for this status.
    pub fn code(&self) -> (res: i32)
        ensures
            res == status_code_of(*self),
    {
        match self {
            Ws2TcpStatus::Stopped => 0,
            Ws2TcpStatus::Running => 1,
        }
    }
}

/// What the last error of a handle was about.
#[derive(Debug, Clone, Copy, PartialEq, Eq, Structural)]
pub enum ErrorKind {
    /// No error since the proxy last started.
    NoError,
    /// `config_json` was missing or described no usable settings.
    InvalidConfig,
    /// A start was refused because the proxy runs.
    AlreadyRunning,
    /// The gateway rejected the credentials, or asked for some that were not given.
    AuthFailed,
    /// The gateway could not be reached or did not answer like a gateway.
    GatewayUnavailable,
    /// The proxy failed for another reason.
    Runtime,
}

/// The number C sees for an error kind.
pub open spec fn error_kind_code_of(kind: ErrorKind) -> i32 {
    match kind {
        ErrorKind::NoError => 0,
        ErrorKind::InvalidConfig => 1,
        ErrorKind::AlreadyRunning => 2,
        ErrorKind::AuthFailed => 3,
        ErrorKind::GatewayUnavailable => 4,
        ErrorKind::Runtime => 5,
    }
}

impl ErrorKind {
    /// The number C sees for this kind.
    pub fn code(&self) -> (res: i32)
        ensures
            res == error_kind_code_of(*self),
    {
        match self {
            ErrorKind::NoError => 0,
            ErrorKind::InvalidConfig => 1,
            ErrorKind::AlreadyRunning => 2,
            ErrorKind::AuthFailed => 3,
            ErrorKind::GatewayUnavailable => 4,
            ErrorKind::Runtime => 5,
        }
    }
}

/// The answer of a call that has no handle to keep its error in: the argument was invalid.
pub fn ffi_error_without_handle(err: CStrError) -> (res: i32)
    ensures
        res == WS2TCP_ERROR_INVALID_ARGUMENT,
{
    let _ = err;
    WS2TCP_ERROR_INVALID_ARGUMENT
}

/// The answer of `ws2tcp_set_log_callback` once logging was set up, or failed to be:
/// `Err` holds why the logging subscriber could not be installed.
pub fn logging_init_code(result: Result<(), String>) -> (res: i32)
    ensures
        res == if result is Ok { WS2TCP_OK } else { WS2TCP_ERROR_RUNTIME },
{
    match result {
        Ok(()) => WS2TCP_OK,
        Err(_) => WS2TCP_ERROR_RUNTIME,
    }
}

} // verus!

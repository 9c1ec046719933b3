//! The unified error taxonomy of the proxy core, and the error-mapping
//! helpers used by the QUIC and TLS layers and by the runtime launcher.

use vstd::prelude::*;

verus! {

/// The category of a handler failure, as surfaced to the framework.
#[derive(Clone, Copy, Debug, PartialEq, Eq, Structural)]
pub enum ErrorKind {
    /// Socket read/write or file read failures.
    Io,
    /// Malformed certificates or keys, empty DNS results, a missing
    /// expected upstream stream, or an invalid SNI name.
    InvalidInput,
    /// Negotiation or handshake semantic failures, and the drop sentinel.
    Protocol,
    /// Library-internal failures kept opaque to callers.
    Other,
}

/// A handler failure: a category together with a human-readable message.
#[derive(Clone, Debug)]
pub struct HandlerError {
    pub kind: ErrorKind,
    pub message: String,
}

impl HandlerError {
    /// Builds an error of the given category carrying the given message.
    pub fn new(kind: ErrorKind, message: String) -> (r: HandlerError)
        ensures
            r.kind == kind,
            r.message@ == message@,
    {
        HandlerError { kind, message }
    }
}

/// Maps any QUIC-layer failure to an opaque error that keeps the
/// underlying reason attached as its message.
pub fn quic_err(message: String) -> (r: HandlerError)
    ensures
        r.kind == ErrorKind::Other,
        r.message@ == message@,
{
    HandlerError { kind: ErrorKind::Other, message }
}

/// Maps any TLS-layer failure to an opaque error: the underlying reason
/// is intentionally discarded and callers see only "tls error".
pub fn tls_err(message: String) -> (r: HandlerError)
    ensures
        r.kind == ErrorKind::Other,
        r.message@ == "tls error"@,
{
    let _ = message;
    HandlerError { kind: ErrorKind::Other, message: "tls error".to_owned() }
}

/// A failure of the runtime as reported to the platform launcher.
#[derive(Clone, Copy, Debug, PartialEq, Eq, Structural)]
pub enum RuntimeError {
    /// Config parsing failed.
    Config,
    /// No config file was associated with the runtime.
    NoConfigFile,
    /// An I/O operation failed.
    Io,
    /// Sending on an async channel failed.
    AsyncChannelSend,
    /// Receiving on a sync channel failed.
    SyncChannelRecv,
    /// The runtime manager failed.
    RuntimeManager,
}

/// No error.
pub const ERR_OK: i32 = 0;

/// Config path error.
pub const ERR_CONFIG_PATH: i32 = 1;

/// Config parsing error.
pub const ERR_CONFIG: i32 = 2;

/// IO error.
pub const ERR_IO: i32 = 3;

/// Config file watcher error.
pub const ERR_WATCHER: i32 = 4;

/// Async channel send error.
pub const ERR_ASYNC_CHANNEL_SEND: i32 = 5;

/// Sync channel receive error.
pub const ERR_SYNC_CHANNEL_RECV: i32 = 6;

/// Runtime manager error.
pub const ERR_RUNTIME_MANAGER: i32 = 7;

/// No associated config file.
pub const ERR_NO_CONFIG_FILE: i32 = 8;

/// Maps a runtime failure to the numeric code handed across the
/// platform boundary.
pub fn to_errno(e: RuntimeError) -> (r: i32)
    ensures
        r == match e {
            RuntimeError::Config => ERR_CONFIG,
            RuntimeError::NoConfigFile => ERR_NO_CONFIG_FILE,
            RuntimeError::Io => ERR_IO,
            RuntimeError::AsyncChannelSend => ERR_ASYNC_CHANNEL_SEND,
            RuntimeError::SyncChannelRecv => ERR_SYNC_CHANNEL_RECV,
            RuntimeError::RuntimeManager => ERR_RUNTIME_MANAGER,
        },
{
    match e {
        RuntimeError::Config => ERR_CONFIG,
        RuntimeError::NoConfigFile => ERR_NO_CONFIG_FILE,
        RuntimeError::Io => ERR_IO,
        RuntimeError::AsyncChannelSend => ERR_ASYNC_CHANNEL_SEND,
        RuntimeError::SyncChannelRecv => ERR_SYNC_CHANNEL_RECV,
        RuntimeError::RuntimeManager => ERR_RUNTIME_MANAGER,
    }
}

} // verus!

use flower::error::{
    quic_err, tls_err, to_errno, ErrorKind, HandlerError, RuntimeError, ERR_ASYNC_CHANNEL_SEND,
    ERR_CONFIG, ERR_IO, ERR_NO_CONFIG_FILE, ERR_OK, ERR_RUNTIME_MANAGER, ERR_SYNC_CHANNEL_RECV,
};

#[test]
fn errno_mapping_is_exact() {
    assert_eq!(to_errno(RuntimeError::Config), ERR_CONFIG);
    assert_eq!(to_errno(RuntimeError::Config), 2);
    assert_eq!(to_errno(RuntimeError::NoConfigFile), ERR_NO_CONFIG_FILE);
    assert_eq!(to_errno(RuntimeError::NoConfigFile), 8);
    assert_eq!(to_errno(RuntimeError::Io), ERR_IO);
    assert_eq!(to_errno(RuntimeError::Io), 3);
    assert_eq!(to_errno(RuntimeError::AsyncChannelSend), ERR_ASYNC_CHANNEL_SEND);
    assert_eq!(to_errno(RuntimeError::SyncChannelRecv), ERR_SYNC_CHANNEL_RECV);
    assert_eq!(to_errno(RuntimeError::RuntimeManager), ERR_RUNTIME_MANAGER);
    assert_eq!(ERR_OK, 0);
}

#[test]
fn quic_err_keeps_the_reason() {
    let e = quic_err("handshake timed out".to_string());
    assert_eq!(e.kind, ErrorKind::Other);
    assert_eq!(e.message, "handshake timed out");
}

#[test]
fn tls_err_is_opaque() {
    let e = tls_err("certificate expired: internal detail".to_string());
    assert_eq!(e.kind, ErrorKind::Other);
    assert_eq!(e.message, "tls error");
}

#[test]
fn handler_error_carries_kind_and_message() {
    let e = HandlerError::new(ErrorKind::InvalidInput, "bad".to_string());
    assert_eq!(e.kind, ErrorKind::InvalidInput);
    assert_eq!(e.message, "bad");
}

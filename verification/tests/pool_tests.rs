use flower::error::ErrorKind;
use flower::quic_outbound::{DialOutcome, Handler, Manager, STREAM_CAP};
use flower::session::IpAddress;

fn target() -> Manager<u32> {
    Manager::new("quic.example.net".to_string(), 443, None)
}

fn lookup_ok() -> Result<Vec<IpAddress>, String> {
    Ok(vec![IpAddress::V4(192, 0, 2, 10)])
}

#[test]
fn ten_streams_reuse_one_connection() {
    let mut m = target();
    let first = m
        .new_stream_with(&vec![], lookup_ok(), DialOutcome::Opened(7))
        .unwrap();
    assert_eq!(first, 0);
    for _ in 0..9 {
        let idx = m
            .new_stream_with(&vec![true], lookup_ok(), DialOutcome::Opened(99))
            .unwrap();
        assert_eq!(idx, 0);
    }
    assert_eq!(m.pool.slot_count(), 1);
    assert_eq!(m.pool.accepted_at(0), 10);
    assert_eq!(*m.pool.conn_at(0), 7);
}

#[test]
fn crossing_the_cap_appends_a_second_slot() {
    let mut m = target();
    m.new_stream_with(&vec![], lookup_ok(), DialOutcome::Opened(1))
        .unwrap();
    for _ in 0..(STREAM_CAP - 1) {
        m.new_stream_with(&vec![true], lookup_ok(), DialOutcome::Opened(1))
            .unwrap();
    }
    assert_eq!(m.pool.slot_count(), 1);
    assert_eq!(m.pool.accepted_at(0), STREAM_CAP);
    // The 129th request: the saturated slot is retired and a fresh
    // connection serves the stream, starting at count one.
    let idx = m
        .new_stream_with(&vec![true], lookup_ok(), DialOutcome::Opened(2))
        .unwrap();
    assert_eq!(idx, 1);
    assert_eq!(m.pool.slot_count(), 2);
    assert!(m.pool.retired_at(0));
    assert_eq!(m.pool.accepted_at(1), 1);
    assert_eq!(*m.pool.conn_at(1), 2);
    // Every slot stays within the cap throughout.
    for i in 0..m.pool.slot_count() {
        assert!(m.pool.accepted_at(i) <= STREAM_CAP);
    }
}

#[test]
fn failed_open_retires_the_slot_and_a_fresh_dial_serves() {
    let mut m = target();
    m.new_stream_with(&vec![], lookup_ok(), DialOutcome::Opened(1))
        .unwrap();
    // The second request fails to open a stream on the pooled
    // connection: the slot is retired and a fresh connection is dialed.
    let idx = m
        .new_stream_with(&vec![false], lookup_ok(), DialOutcome::Opened(2))
        .unwrap();
    assert_eq!(idx, 1);
    assert!(m.pool.retired_at(0));
    assert_eq!(m.pool.accepted_at(0), 1);
    // The next request sweeps the retired slot out: pool size is 1 again.
    let idx = m
        .new_stream_with(&vec![true], lookup_ok(), DialOutcome::Opened(3))
        .unwrap();
    assert_eq!(idx, 0);
    assert_eq!(m.pool.slot_count(), 1);
    assert_eq!(*m.pool.conn_at(0), 2);
    assert_eq!(m.pool.accepted_at(0), 2);
}

#[test]
fn exactly_one_count_rises_per_granted_stream() {
    let mut m = target();
    m.new_stream_with(&vec![], lookup_ok(), DialOutcome::Opened(1))
        .unwrap();
    m.new_stream_with(&vec![true], lookup_ok(), DialOutcome::Opened(9))
        .unwrap();
    m.new_stream_with(&vec![false], lookup_ok(), DialOutcome::Opened(2))
        .unwrap();
    // First slot kept its count of 2 when it was retired; the new slot
    // was appended with count 1.
    assert_eq!(m.pool.accepted_at(0), 2);
    assert_eq!(m.pool.accepted_at(1), 1);
}

#[test]
fn empty_dns_result_is_invalid_input() {
    let mut m = target();
    let e = m
        .new_stream_with(&vec![], Ok(vec![]), DialOutcome::Opened(1))
        .unwrap_err();
    assert_eq!(e.kind, ErrorKind::InvalidInput);
    assert_eq!(e.message, "could not resolve to any address");
    assert_eq!(m.pool.slot_count(), 0);
}

#[test]
fn lookup_failure_is_opaque_with_reason() {
    let mut m = target();
    let e = m
        .new_stream_with(
            &vec![],
            Err("lookup quic.example.net failed".to_string()),
            DialOutcome::Opened(1),
        )
        .unwrap_err();
    assert_eq!(e.kind, ErrorKind::Other);
    assert_eq!(e.message, "lookup quic.example.net failed");
}

#[test]
fn connect_failure_is_opaque_with_reason() {
    let mut m = target();
    let e = m
        .new_stream_with(
            &vec![],
            lookup_ok(),
            DialOutcome::<u32>::ConnectFailed("handshake refused".to_string()),
        )
        .unwrap_err();
    assert_eq!(e.kind, ErrorKind::Other);
    assert_eq!(e.message, "handshake refused");
    let e = m
        .new_stream_with(
            &vec![],
            lookup_ok(),
            DialOutcome::<u32>::OpenFailed("stream refused".to_string()),
        )
        .unwrap_err();
    assert_eq!(e.kind, ErrorKind::Other);
    assert_eq!(e.message, "stream refused");
}

#[test]
fn connect_addr_picks_first_ip_and_port() {
    let m = target();
    let sa = m
        .connect_addr(&vec![
            IpAddress::V4(192, 0, 2, 1),
            IpAddress::V4(192, 0, 2, 2),
        ])
        .unwrap();
    assert_eq!(sa.ip, IpAddress::V4(192, 0, 2, 1));
    assert_eq!(sa.port, 443);
    let e = m.connect_addr(&vec![]).unwrap_err();
    assert_eq!(e.kind, ErrorKind::InvalidInput);
}

#[test]
fn sni_prefers_the_configured_name() {
    let named: Manager<u32> =
        Manager::new("10.0.0.1".to_string(), 443, Some("edge.example.net".to_string()));
    assert_eq!(named.sni(), "edge.example.net");
    let unnamed = target();
    assert_eq!(unnamed.sni(), "quic.example.net");
}

#[test]
fn quic_handler_dials_by_itself() {
    let mut h: Handler<u32> = Handler::new("quic.example.net".to_string(), 443, None);
    assert!(h.connect_addr().is_some());
    let idx = h
        .new_stream_with(&vec![], lookup_ok(), DialOutcome::Opened(5))
        .unwrap();
    assert_eq!(idx, 0);
    assert_eq!(h.manager.pool.slot_count(), 1);
}

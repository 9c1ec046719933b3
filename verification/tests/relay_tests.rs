use flower::relay::{copy_tcp, relay_tcp, ByteSink, ByteSource, DuplexEnd, COPY_BUFFER};

#[test]
fn copy_delivers_every_byte_in_order() {
    let payload: Vec<u8> = (0u8..=255).cycle().take(1000).collect();
    let mut src = ByteSource::new(payload.clone());
    let mut sink = ByteSink::new();
    copy_tcp(&mut src, &mut sink);
    assert_eq!(sink.data, payload);
    assert_eq!(sink.flushed, sink.data.len());
}

#[test]
fn copy_spans_multiple_chunks() {
    let payload: Vec<u8> = vec![0xabu8; COPY_BUFFER * 2 + 17];
    let mut src = ByteSource::new(payload.clone());
    let mut sink = ByteSink::new();
    copy_tcp(&mut src, &mut sink);
    assert_eq!(sink.data, payload);
}

#[test]
fn copy_of_an_empty_source_writes_nothing() {
    let mut src = ByteSource::new(Vec::new());
    let mut sink = ByteSink::new();
    copy_tcp(&mut src, &mut sink);
    assert_eq!(sink.data.len(), 0);
    assert_eq!(sink.flushed, 0);
}

#[test]
fn relay_copies_both_ways_and_shuts_down_each_end_once() {
    let mut a = DuplexEnd::new(b"abc".to_vec());
    let mut b = DuplexEnd::new(b"12345".to_vec());
    relay_tcp(&mut a, &mut b);
    assert_eq!(b.output.data, b"abc".to_vec());
    assert_eq!(a.output.data, b"12345".to_vec());
    // Shutdown was invoked on both ends exactly once each.
    assert_eq!(a.shutdowns, 1);
    assert_eq!(b.shutdowns, 1);
}

#[test]
fn chunked_reads_advance_the_source() {
    let mut src = ByteSource::new(vec![1, 2, 3, 4, 5]);
    let first = src.read_chunk(2);
    assert_eq!(first, vec![1, 2]);
    let second = src.read_chunk(2);
    assert_eq!(second, vec![3, 4]);
    let third = src.read_chunk(2);
    assert_eq!(third, vec![5]);
    let done = src.read_chunk(2);
    assert!(done.is_empty());
}

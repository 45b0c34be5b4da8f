use peernet::{encode_frame, Feed, FrameReader, NetError, SENTINEL};

fn feed_all(reader: &mut FrameReader, chunks: &[&[u8]]) -> Vec<Feed> {
    chunks.iter().map(|c| reader.feed(c)).collect()
}

#[test]
fn encode_appends_sentinel() {
    let framed = encode_frame(&vec![b'{', b'}']).unwrap();
    assert_eq!(framed, vec![b'{', b'}', 4]);
    assert_eq!(SENTINEL, 4);
}

#[test]
fn encode_empty_payload() {
    assert_eq!(encode_frame(&vec![]).unwrap(), vec![4]);
}

#[test]
fn encode_refuses_sentinel_in_payload() {
    assert_eq!(encode_frame(&vec![1, 4, 2]), Err(NetError::Protocol));
}

#[test]
fn frame_round_trip_in_one_chunk() {
    let payload = b"{\"Request\":\"Nodes\"}".to_vec();
    let framed = encode_frame(&payload).unwrap();
    let mut reader = FrameReader::new(1024);
    match reader.feed(&framed) {
        Feed::Complete(p) => assert_eq!(p, payload),
        other => panic!("unexpected {:?}", other),
    }
}

#[test]
fn frame_reassembled_one_byte_at_a_time() {
    let payload = b"{\"Request\":\"Connect\"}".to_vec();
    let framed = encode_frame(&payload).unwrap();
    let mut reader = FrameReader::new(1024);
    for (i, b) in framed.iter().enumerate() {
        let out = reader.feed(&[*b]);
        if i + 1 < framed.len() {
            assert!(matches!(out, Feed::Pending));
        } else {
            match out {
                Feed::Complete(p) => assert_eq!(p, payload),
                other => panic!("unexpected {:?}", other),
            }
        }
    }
}

#[test]
fn frame_split_in_uneven_chunks() {
    let mut reader = FrameReader::new(16);
    let outs = feed_all(&mut reader, &[b"ab", b"", b"cde", &[b'f', 4]]);
    assert!(matches!(outs[0], Feed::Pending));
    assert!(matches!(outs[1], Feed::Pending));
    assert!(matches!(outs[2], Feed::Pending));
    match &outs[3] {
        Feed::Complete(p) => assert_eq!(p, &b"abcdef".to_vec()),
        other => panic!("unexpected {:?}", other),
    }
}

#[test]
fn bytes_after_sentinel_are_dropped() {
    let mut reader = FrameReader::new(16);
    match reader.feed(&[7, 8, 4, 9, 9]) {
        Feed::Complete(p) => assert_eq!(p, vec![7, 8]),
        other => panic!("unexpected {:?}", other),
    }
    assert!(matches!(reader.feed(&[1]), Feed::Pending));
}

#[test]
fn message_at_limit_is_accepted() {
    let mut reader = FrameReader::new(3);
    match reader.feed(&[1, 2, 3, 4]) {
        Feed::Complete(p) => assert_eq!(p, vec![1, 2, 3]),
        other => panic!("unexpected {:?}", other),
    }
}

#[test]
fn message_over_limit_is_refused() {
    let mut reader = FrameReader::new(3);
    assert!(matches!(reader.feed(&[1, 2, 3, 5, 4]), Feed::Oversized));
    let mut reader = FrameReader::new(3);
    assert!(matches!(reader.feed(&[1, 2]), Feed::Pending));
    assert!(matches!(reader.feed(&[3, 5]), Feed::Oversized));
    assert!(matches!(reader.feed(&[6, 4]), Feed::Complete(_)));
}

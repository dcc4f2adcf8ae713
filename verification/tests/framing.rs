use nat_tunnel::framing::{encode_frame, FrameBuffer, FrameError, HEADER_LEN, MAX_FRAME_LEN};

#[test]
fn encode_prefixes_big_endian_length() {
    let framed = encode_frame(&[1, 2, 3]).unwrap();
    assert_eq!(framed, vec![0, 0, 0, 3, 1, 2, 3]);
}

#[test]
fn encode_empty_payload() {
    assert_eq!(encode_frame(&[]).unwrap(), vec![0, 0, 0, 0]);
}

#[test]
fn encode_length_uses_all_four_bytes() {
    let payload = vec![7u8; 0x01_02_03];
    let framed = encode_frame(&payload).unwrap();
    assert_eq!(&framed[..HEADER_LEN], &[0x00, 0x01, 0x02, 0x03]);
    assert_eq!(framed.len(), HEADER_LEN + payload.len());
    assert_eq!(&framed[HEADER_LEN..], &payload[..]);
}

#[test]
fn encode_largest_allowed_payload() {
    let payload = vec![0u8; MAX_FRAME_LEN];
    let framed = encode_frame(&payload).unwrap();
    assert_eq!(&framed[..HEADER_LEN], &[0x00, 0x80, 0x00, 0x00]);
}

#[test]
fn encode_rejects_oversized_payload() {
    let payload = vec![0u8; MAX_FRAME_LEN + 1];
    assert_eq!(encode_frame(&payload), Err(FrameError::TooLarge));
}

#[test]
fn buffer_waits_for_header_and_payload() {
    let mut buf = FrameBuffer::new();
    assert!(!buf.has_pending());
    buf.push_bytes(&[0, 0]);
    assert_eq!(buf.next_frame(), Ok(None));
    buf.push_bytes(&[0, 2, 9]);
    assert_eq!(buf.next_frame(), Ok(None));
    assert!(buf.has_pending());
    buf.push_bytes(&[8, 5]);
    assert_eq!(buf.next_frame(), Ok(Some(vec![9, 8])));
    assert!(buf.has_pending());
    assert_eq!(buf.next_frame(), Ok(None));
}

#[test]
fn buffer_reads_back_consecutive_frames() {
    let mut buf = FrameBuffer::new();
    let mut wire = encode_frame(b"hello").unwrap();
    wire.extend(encode_frame(b"").unwrap());
    wire.extend(encode_frame(b"world!").unwrap());
    buf.push_bytes(&wire);
    assert_eq!(buf.next_frame(), Ok(Some(b"hello".to_vec())));
    assert_eq!(buf.next_frame(), Ok(Some(Vec::new())));
    assert_eq!(buf.next_frame(), Ok(Some(b"world!".to_vec())));
    assert_eq!(buf.next_frame(), Ok(None));
    assert!(!buf.has_pending());
}

#[test]
fn roundtrip_keeps_trailing_bytes() {
    let payload = br#"{"Ping":{"seq":7}}"#;
    let mut buf = FrameBuffer::new();
    let mut wire = encode_frame(payload).unwrap();
    wire.extend([0, 0]);
    buf.push_bytes(&wire);
    assert_eq!(buf.next_frame(), Ok(Some(payload.to_vec())));
    assert!(buf.has_pending());
    assert_eq!(buf.next_frame(), Ok(None));
}

#[test]
fn every_proper_prefix_of_a_frame_waits() {
    let wire = encode_frame(b"abc").unwrap();
    for k in 0..wire.len() {
        let mut buf = FrameBuffer::new();
        buf.push_bytes(&wire[..k]);
        assert_eq!(buf.next_frame(), Ok(None));
    }
}

#[test]
fn oversized_announcement_closes_the_buffer() {
    let mut buf = FrameBuffer::new();
    buf.push_bytes(&[0x00, 0x80, 0x00, 0x01]);
    assert_eq!(buf.next_frame(), Err(FrameError::TooLarge));
    buf.push_bytes(&encode_frame(b"x").unwrap());
    assert_eq!(buf.next_frame(), Err(FrameError::Closed));
    assert_eq!(buf.next_frame(), Err(FrameError::Closed));
}

#[test]
fn largest_announcement_is_waited_for() {
    let mut buf = FrameBuffer::new();
    buf.push_bytes(&[0x00, 0x80, 0x00, 0x00, 1, 2]);
    assert_eq!(buf.next_frame(), Ok(None));
}

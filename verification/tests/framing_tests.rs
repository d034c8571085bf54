use skylinedb::framing::{
    decode_frame_len, encode_frame, encode_frame_len, frame_status, take_frame, FrameStatus,
    MAX_MESSAGE_SIZE,
};

#[test]
fn little_endian_length_round_trip() {
    let b = encode_frame_len(0x1234_5678);
    assert_eq!(b, vec![0x78, 0x56, 0x34, 0x12]);
    assert_eq!(decode_frame_len(&b), 0x1234_5678);
    assert_eq!(encode_frame_len(0), vec![0, 0, 0, 0]);
    assert_eq!(decode_frame_len(&[1, 0, 0, 0]), 1);
}

#[test]
fn encode_frame_prefixes_payload() {
    let payload = vec![9u8, 8, 7];
    let framed = encode_frame(&payload).expect("small payload must frame");
    assert_eq!(framed, vec![3, 0, 0, 0, 9, 8, 7]);
}

#[test]
fn encode_frame_rejects_oversized_payload() {
    let payload = vec![0u8; MAX_MESSAGE_SIZE + 1];
    assert!(encode_frame(&payload).is_none());
}

#[test]
fn encode_frame_accepts_payload_at_limit() {
    let payload = vec![0u8; MAX_MESSAGE_SIZE];
    let framed = encode_frame(&payload).expect("payload at the limit must frame");
    assert_eq!(framed.len(), 4 + MAX_MESSAGE_SIZE);
}

#[test]
fn frame_status_needs_header_below_four_bytes() {
    assert_eq!(frame_status(&[]), FrameStatus::NeedHeader);
    assert_eq!(frame_status(&[1, 2, 3]), FrameStatus::NeedHeader);
}

#[test]
fn frame_status_accepts_length_exactly_at_limit() {
    let header = encode_frame_len(MAX_MESSAGE_SIZE as u32);
    assert_eq!(
        frame_status(&header),
        FrameStatus::NeedBody { declared: MAX_MESSAGE_SIZE as u32 }
    );
}

#[test]
fn frame_status_drops_length_one_over_limit() {
    let header = encode_frame_len(MAX_MESSAGE_SIZE as u32 + 1);
    assert_eq!(
        frame_status(&header),
        FrameStatus::TooLarge { declared: MAX_MESSAGE_SIZE as u32 + 1 }
    );
}

#[test]
fn frame_at_limit_completes_and_reads_back() {
    let payload = vec![7u8; MAX_MESSAGE_SIZE];
    let mut buf = encode_frame(&payload).expect("payload at the limit must frame");
    assert_eq!(
        frame_status(&buf),
        FrameStatus::Complete { declared: MAX_MESSAGE_SIZE as u32 }
    );
    let read = take_frame(&mut buf);
    assert_eq!(read.len(), MAX_MESSAGE_SIZE);
    assert!(buf.is_empty());
}

#[test]
fn take_frame_leaves_later_bytes_in_place() {
    let mut buf = encode_frame(&vec![1u8, 2]).unwrap();
    buf.extend_from_slice(&[5, 0, 0, 0, 99]);
    assert_eq!(frame_status(&buf), FrameStatus::Complete { declared: 2 });
    let payload = take_frame(&mut buf);
    assert_eq!(payload, vec![1, 2]);
    assert_eq!(buf, vec![5, 0, 0, 0, 99]);
    assert_eq!(frame_status(&buf), FrameStatus::NeedBody { declared: 5 });
}

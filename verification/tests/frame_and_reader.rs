use packets::frame::{encode_frame, frame_available, frame_length, HEADER_LEN, PEEK_LEN};
use packets::reader::{FrameReader, ReadAction, ReadEvent, ReadPhase};
use packets::IoErrorKind;

#[test]
fn encode_frame_prefixes_little_endian_length() {
    let frame = encode_frame(&[7u8, 8, 9]);
    assert_eq!(frame, vec![3u8, 0, 0, 0, 7, 8, 9]);
}

#[test]
fn encode_frame_of_long_payload() {
    let payload: Vec<u8> = (0..300u32).map(|i| (i % 251) as u8).collect();
    let frame = encode_frame(&payload);
    assert_eq!(frame.len(), HEADER_LEN + 300);
    assert_eq!(&frame[..4], &[0x2c, 0x01, 0, 0]);
    assert_eq!(&frame[4..], &payload[..]);
}

#[test]
fn encode_frame_of_empty_payload() {
    assert_eq!(encode_frame(&[]), vec![0u8, 0, 0, 0]);
}

#[test]
fn frame_length_reads_little_endian() {
    assert_eq!(frame_length(&[0x78, 0x56, 0x34, 0x12]), 0x1234_5678);
    assert_eq!(frame_length(&[1, 0, 0, 0]), 1);
    assert_eq!(frame_length(&[0xff, 0xff, 0xff, 0xff]), u32::MAX);
}

#[test]
fn frame_length_undoes_encode_frame() {
    let payload = vec![42u8; 1_000];
    let frame = encode_frame(&payload);
    assert_eq!(frame_length(&frame[..4]), 1_000);
}

#[test]
fn frame_available_needs_a_payload_byte() {
    assert!(!frame_available(&[]));
    assert!(!frame_available(&[3, 0, 0]));
    assert!(!frame_available(&[3, 0, 0, 0]));
    assert!(!frame_available(&[0, 0, 0, 1]));
    assert!(frame_available(&[3, 0, 0, 0, 7]));
    assert_eq!(PEEK_LEN, 5);
}

#[test]
fn frame_available_for_a_header_of_an_empty_payload() {
    assert!(frame_available(&[0, 0, 0, 0]));
    assert!(!frame_available(&[0, 0, 0]));
}

#[test]
fn reader_reads_back_a_written_frame() {
    let payload = vec![1u8, 2, 3, 4, 5, 6];
    let frame = encode_frame(&payload);
    let mut reader = FrameReader::new();
    assert_eq!(reader.phase(), ReadPhase::AwaitingPeek);
    let peeked = frame[..frame.len().min(PEEK_LEN)].to_vec();
    assert_eq!(reader.step(ReadEvent::Peeked(peeked)), ReadAction::ReadHeader);
    assert_eq!(reader.phase(), ReadPhase::AwaitingHeader);
    assert_eq!(reader.step(ReadEvent::Header(frame[..4].to_vec())), ReadAction::ReadBody(6));
    assert_eq!(reader.phase(), ReadPhase::AwaitingBody { len: 6 });
    assert_eq!(reader.step(ReadEvent::Body(frame[4..].to_vec())), ReadAction::Deliver(payload));
    assert_eq!(reader.phase(), ReadPhase::Finished);
}

#[test]
fn reader_reads_back_an_empty_frame() {
    let frame = encode_frame(&[]);
    let mut reader = FrameReader::new();
    assert_eq!(reader.step(ReadEvent::Peeked(frame.clone())), ReadAction::ReadHeader);
    assert_eq!(reader.step(ReadEvent::Header(frame.clone())), ReadAction::ReadBody(0));
    assert_eq!(reader.step(ReadEvent::Body(Vec::new())), ReadAction::Deliver(Vec::new()));
    assert_eq!(reader.phase(), ReadPhase::Finished);
}

#[test]
fn reader_waits_for_a_payload_byte() {
    let mut reader = FrameReader::new();
    assert_eq!(reader.step(ReadEvent::Peeked(vec![9, 0, 0, 0])), ReadAction::NoPacket);
    assert_eq!(reader.phase(), ReadPhase::Finished);
    let mut reader = FrameReader::new();
    assert_eq!(reader.step(ReadEvent::Peeked(vec![9, 0])), ReadAction::NoPacket);
}

#[test]
fn reader_peek_would_block_means_no_packet() {
    let mut reader = FrameReader::new();
    assert_eq!(reader.step(ReadEvent::Failed(IoErrorKind::WouldBlock)), ReadAction::NoPacket);
}

#[test]
fn reader_peek_failure_fails() {
    let mut reader = FrameReader::new();
    assert_eq!(
        reader.step(ReadEvent::Failed(IoErrorKind::ConnectionAborted)),
        ReadAction::Fail(IoErrorKind::ConnectionAborted)
    );
}

#[test]
fn reader_header_failure_fails_even_when_it_would_block() {
    let mut reader = FrameReader::new();
    assert_eq!(reader.step(ReadEvent::Peeked(vec![2, 0, 0, 0, 1])), ReadAction::ReadHeader);
    assert_eq!(
        reader.step(ReadEvent::Failed(IoErrorKind::WouldBlock)),
        ReadAction::Fail(IoErrorKind::WouldBlock)
    );
    assert_eq!(reader.phase(), ReadPhase::Finished);
}

#[test]
fn reader_body_would_block_means_no_packet() {
    let mut reader = FrameReader::new();
    reader.step(ReadEvent::Peeked(vec![2, 0, 0, 0, 1]));
    assert_eq!(reader.step(ReadEvent::Header(vec![2, 0, 0, 0])), ReadAction::ReadBody(2));
    assert_eq!(reader.step(ReadEvent::Failed(IoErrorKind::WouldBlock)), ReadAction::NoPacket);
}

#[test]
fn reader_body_failure_fails() {
    let mut reader = FrameReader::new();
    reader.step(ReadEvent::Peeked(vec![2, 0, 0, 0, 1]));
    reader.step(ReadEvent::Header(vec![2, 0, 0, 0]));
    assert_eq!(reader.step(ReadEvent::Failed(IoErrorKind::Other)), ReadAction::Fail(IoErrorKind::Other));
}

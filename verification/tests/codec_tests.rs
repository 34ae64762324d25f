//! Tests of the frame codec: round trips, exact wire bytes, and the
//! asymmetric resynchronization policy.

use frontpanel::codec::{
    frame_message, frame_message_tagged, unframe_message, unframe_message_tagged, unframe_scan,
    unframe_scan_tagged, FrameError, TaggedStep, UnframeStep,
};

#[test]
fn minimal_frame_exact_bytes() {
    let code = b"AC".to_vec();
    let payload: Vec<u8> = Vec::new();
    let frame = frame_message(&code, &payload);
    assert_eq!(frame, vec![0x5A, 0x5A, 2, 0x41, 0x43, 0, 0, 0xA5, 0xA5]);
}

#[test]
fn minimal_frame_round_trip() {
    let code = b"STAT".to_vec();
    let payload = vec![1u8, 2, 3, 4, 5];
    let frame = frame_message(&code, &payload);
    match unframe_message(&frame, 0) {
        UnframeStep::Decoded { code: c, payload: p, used } => {
            assert_eq!(c, code);
            assert_eq!(p, payload);
            assert_eq!(used, frame.len());
        }
        _ => panic!("expected a decoded frame"),
    }
}

#[test]
fn minimal_frame_round_trip_with_trailing_bytes() {
    let code = b"POWER".to_vec();
    let payload = vec![1u8];
    let mut buf = frame_message(&code, &payload);
    let frame_len = buf.len();
    buf.extend_from_slice(&[0x5A, 0x77, 0x88]);
    match unframe_message(&buf, 0) {
        UnframeStep::Decoded { code: c, payload: p, used } => {
            assert_eq!(c, code);
            assert_eq!(p, payload);
            assert_eq!(used, frame_len);
        }
        _ => panic!("expected a decoded frame"),
    }
}

#[test]
fn minimal_frame_largest_lengths_round_trip() {
    let code = vec![0x41u8; 255];
    let payload = vec![0xEEu8; 65535];
    let frame = frame_message(&code, &payload);
    match unframe_message(&frame, 0) {
        UnframeStep::Decoded { code: c, payload: p, used } => {
            assert_eq!(c, code);
            assert_eq!(p, payload);
            assert_eq!(used, frame.len());
        }
        _ => panic!("expected a decoded frame"),
    }
}

#[test]
fn minimal_empty_code_and_payload_round_trip() {
    let code: Vec<u8> = Vec::new();
    let payload: Vec<u8> = Vec::new();
    let frame = frame_message(&code, &payload);
    assert_eq!(frame.len(), 7);
    match unframe_message(&frame, 0) {
        UnframeStep::Decoded { code: c, payload: p, used } => {
            assert!(c.is_empty());
            assert!(p.is_empty());
            assert_eq!(used, 7);
        }
        _ => panic!("expected a decoded frame"),
    }
}

#[test]
fn minimal_needs_more_bytes() {
    let frame = frame_message(&b"CLEAR".to_vec(), &vec![9u8; 10]);
    // Nothing decided from a bare start sentinel.
    let prefix = frame[0..2].to_vec();
    match unframe_message(&prefix, 0) {
        UnframeStep::NeedMore { demand } => assert_eq!(demand, 3),
        _ => panic!("expected a demand for more bytes"),
    }
    // Once the code length is known the demand covers the payload length
    // field, then the whole frame.
    let prefix = frame[0..4].to_vec();
    match unframe_message(&prefix, 0) {
        UnframeStep::NeedMore { demand } => assert_eq!(demand, 10),
        _ => panic!("expected a demand for more bytes"),
    }
    let prefix = frame[0..frame.len() - 1].to_vec();
    match unframe_message(&prefix, 0) {
        UnframeStep::NeedMore { demand } => assert_eq!(demand, frame.len()),
        _ => panic!("expected a demand for more bytes"),
    }
}

#[test]
fn corrupt_end_sentinel_is_fatal() {
    let mut frame = frame_message(&b"STAT".to_vec(), &vec![7u8, 8]);
    let last = frame.len() - 1;
    frame[last] = 0x00;
    assert!(matches!(unframe_message(&frame, 0), UnframeStep::Corrupt));
}

#[test]
fn corrupt_start_sentinel_keeps_scanning() {
    let code = b"MANL".to_vec();
    let payload = vec![0u8];
    let mut buf = vec![0x00u8, 0x5A, 0x13];
    let junk = buf.len();
    buf.extend_from_slice(&frame_message(&code, &payload));
    // The decoder skips one byte at a time until it re-finds a valid
    // start sentinel, then decodes the whole frame.
    let mut from = 0usize;
    loop {
        match unframe_message(&buf, from) {
            UnframeStep::SkipByte => from += 1,
            UnframeStep::Decoded { code: c, payload: p, .. } => {
                assert_eq!(from, junk);
                assert_eq!(c, code);
                assert_eq!(p, payload);
                break;
            }
            _ => panic!("expected skipping to end in a decoded frame"),
        }
    }
}

#[test]
fn scan_skips_junk_to_the_next_frame() {
    let code = b"RESET".to_vec();
    let payload: Vec<u8> = Vec::new();
    let mut buf = vec![0x11u8, 0x22, 0x5A, 0x00];
    let junk = buf.len();
    buf.extend_from_slice(&frame_message(&code, &payload));
    let (skipped, step) = unframe_scan(&buf, 0);
    assert_eq!(skipped, junk);
    match step {
        UnframeStep::Decoded { code: c, payload: p, .. } => {
            assert_eq!(c, code);
            assert_eq!(p, payload);
        }
        _ => panic!("expected a decoded frame"),
    }
}

#[test]
fn scan_with_nothing_left_demands_more() {
    let buf = vec![0x00u8, 0x01];
    let (skipped, step) = unframe_scan(&buf, 0);
    assert_eq!(skipped, 2);
    assert!(matches!(step, UnframeStep::NeedMore { .. }));
}

#[test]
fn tagged_scan_skips_junk_to_the_next_frame() {
    let sender = b"MF".to_vec();
    let code = b"BUSY".to_vec();
    let payload = vec![3u8];
    let mut buf = vec![0xFFu8; 5];
    buf.extend_from_slice(&frame_message_tagged(&sender, &code, &payload));
    let (skipped, step) = unframe_scan_tagged(&buf, 0);
    assert_eq!(skipped, 5);
    match step {
        TaggedStep::Decoded { sender: s, code: c, payload: p, .. } => {
            assert_eq!(s, sender);
            assert_eq!(c, code);
            assert_eq!(p, payload);
        }
        _ => panic!("expected a decoded frame"),
    }
}

#[test]
fn tagged_frame_exact_bytes() {
    let frame = frame_message_tagged(&b"MF".to_vec(), &b"AC".to_vec(), &vec![1u8]);
    assert_eq!(
        frame,
        vec![0x5A, 0x5A, 0, 11, 2, 0x4D, 0x46, 2, 0x41, 0x43, 0, 1, 1, 0xA5, 0xA5]
    );
}

#[test]
fn tagged_frame_round_trip() {
    let sender = b"MF".to_vec();
    let code = b"POWER".to_vec();
    let payload = vec![1u8];
    let frame = frame_message_tagged(&sender, &code, &payload);
    match unframe_message_tagged(&frame, 0) {
        TaggedStep::Decoded { sender: s, code: c, payload: p, used } => {
            assert_eq!(s, sender);
            assert_eq!(c, code);
            assert_eq!(p, payload);
            assert_eq!(used, frame.len());
        }
        _ => panic!("expected a decoded frame"),
    }
}

#[test]
fn tagged_corrupt_end_sentinel_is_fatal() {
    let mut frame = frame_message_tagged(&b"MF".to_vec(), &b"STAT".to_vec(), &Vec::new());
    let last = frame.len() - 1;
    frame[last] = 0x5A;
    match unframe_message_tagged(&frame, 0) {
        TaggedStep::Fatal { why } => assert!(matches!(why, FrameError::BadEndSentinel)),
        _ => panic!("expected a fatal decode error"),
    }
}

#[test]
fn tagged_bad_start_keeps_scanning() {
    let mut buf = vec![0xA5u8];
    buf.extend_from_slice(&frame_message_tagged(
        &b"MF".to_vec(),
        &b"STAT".to_vec(),
        &Vec::new(),
    ));
    assert!(matches!(unframe_message_tagged(&buf, 0), TaggedStep::SkipByte));
    assert!(matches!(
        unframe_message_tagged(&buf, 1),
        TaggedStep::Decoded { .. }
    ));
}

#[test]
fn tagged_id_length_overrun_is_fatal() {
    // frame_len of 3 cannot even hold the declared 9-byte identifier.
    let buf = vec![0x5Au8, 0x5A, 0, 3, 9, 1, 2, 3, 0xA5, 0xA5];
    match unframe_message_tagged(&buf, 0) {
        TaggedStep::Fatal { why } => assert!(matches!(why, FrameError::BadIdLength)),
        _ => panic!("expected a fatal decode error"),
    }
}

#[test]
fn tagged_code_length_overrun_is_fatal() {
    // frame_len 7 admits the 1-byte identifier but not the 9-byte code.
    let buf = vec![0x5Au8, 0x5A, 0, 7, 1, 0x4D, 9, 0, 0, 0xA5, 0xA5];
    match unframe_message_tagged(&buf, 0) {
        TaggedStep::Fatal { why } => assert!(matches!(why, FrameError::BadCodeLength)),
        _ => panic!("expected a fatal decode error"),
    }
}

#[test]
fn tagged_payload_length_mismatch_is_fatal() {
    let mut frame = frame_message_tagged(&b"MF".to_vec(), &b"AC".to_vec(), &vec![1u8]);
    // Declare one payload byte more than the frame length admits.
    frame[11] = 2;
    match unframe_message_tagged(&frame, 0) {
        TaggedStep::Fatal { why } => assert!(matches!(why, FrameError::BadPayloadLength)),
        _ => panic!("expected a fatal decode error"),
    }
}

#[test]
fn tagged_needs_more_bytes() {
    let frame = frame_message_tagged(&b"MF".to_vec(), &b"STAT".to_vec(), &vec![5u8; 4]);
    let prefix = frame[0..3].to_vec();
    match unframe_message_tagged(&prefix, 0) {
        TaggedStep::NeedMore { demand } => assert_eq!(demand, 5),
        _ => panic!("expected a demand for more bytes"),
    }
    let prefix = frame[0..7].to_vec();
    match unframe_message_tagged(&prefix, 0) {
        TaggedStep::NeedMore { demand } => assert_eq!(demand, frame.len()),
        _ => panic!("expected a demand for more bytes"),
    }
}

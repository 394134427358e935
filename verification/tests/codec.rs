use g815_driver::frame::{classify_frame, encode_frame, encode_header, FrameClass, FRAME_LENGTH};
use g815_driver::transport::{demux_frames, ExchangeResult};

fn frame(bytes: &[u8]) -> Vec<u8> {
    bytes.to_vec()
}

#[test]
fn encode_frame_lays_out_preamble_command_payload_and_padding() {
    let payload = vec![0xaa, 0xbb];
    let encoded = encode_frame(0x106a, &payload);
    assert_eq!(encoded.len(), FRAME_LENGTH);
    assert_eq!(&encoded[..6], &[0x11, 0xff, 0x10, 0x6a, 0xaa, 0xbb]);
    assert!(encoded[6..].iter().all(|&b| b == 0));
}

#[test]
fn encode_frame_empty_payload_is_all_padding() {
    let encoded = encode_frame(0x001a, &Vec::new());
    assert_eq!(encoded.len(), FRAME_LENGTH);
    assert_eq!(&encoded[..4], &[0x11, 0xff, 0x00, 0x1a]);
    assert!(encoded[4..].iter().all(|&b| b == 0));
}

#[test]
fn encode_header_matches_frame_prefix() {
    let payload = vec![1, 2, 3];
    let encoded = encode_frame(0x0b1a, &payload);
    let header = encode_header(0x0b1a);
    assert_eq!(&encoded[..4], header.as_slice());
}

#[test]
fn classify_recognizes_ack_and_strips_header() {
    let header = encode_header(0x021a);
    let inbound = frame(&[0x11, 0xff, 0x02, 0x1a, 7, 8, 9]);
    match classify_frame(&header, &inbound) {
        FrameClass::Ack(payload) => assert_eq!(payload, vec![7, 8, 9]),
        _ => panic!("expected an acknowledgement"),
    }
}

#[test]
fn classify_recognizes_error_response() {
    let header = encode_header(0x021a);
    let inbound = frame(&[0x11, 0xff, 0xff, 0x02, 0x1a]);
    assert!(matches!(classify_frame(&header, &inbound), FrameClass::ErrorResponse));
}

#[test]
fn classify_treats_unrelated_frame_as_interrupt() {
    let header = encode_header(0x021a);
    let inbound = frame(&[0x11, 0xff, 0x0a, 0x00, 0x01]);
    assert!(matches!(classify_frame(&header, &inbound), FrameClass::Interrupt));
    let media = frame(&[0x03, 0x01]);
    assert!(matches!(classify_frame(&header, &media), FrameClass::Interrupt));
    let short = frame(&[0x11]);
    assert!(matches!(classify_frame(&header, &short), FrameClass::Interrupt));
}

#[test]
fn demux_returns_ack_payload_and_queues_prior_interrupts_in_order() {
    let header = encode_header(0x106a);
    let first_interrupt = frame(&[0x03, 0x01]);
    let second_interrupt = frame(&[0x11, 0xff, 0x0a, 0x00, 0x03]);
    let ack = frame(&[0x11, 0xff, 0x10, 0x6a, 0x42]);
    let frames = vec![first_interrupt.clone(), second_interrupt.clone(), ack];
    let (outcome, queued) = demux_frames(&header, &frames, 30);
    match outcome {
        ExchangeResult::Ack(payload) => assert_eq!(payload, vec![0x42]),
        _ => panic!("expected an acknowledgement"),
    }
    assert_eq!(queued, vec![first_interrupt, second_interrupt]);
}

#[test]
fn demux_stops_at_error_response() {
    let header = encode_header(0x106a);
    let interrupt = frame(&[0x03, 0x01]);
    let error = frame(&[0x11, 0xff, 0xff, 0x10, 0x6a]);
    let late_ack = frame(&[0x11, 0xff, 0x10, 0x6a]);
    let frames = vec![interrupt.clone(), error, late_ack];
    let (outcome, queued) = demux_frames(&header, &frames, 30);
    assert!(matches!(outcome, ExchangeResult::ErrorResponse));
    assert_eq!(queued, vec![interrupt]);
}

#[test]
fn demux_exhausts_budget_without_response() {
    let header = encode_header(0x106a);
    let interrupt = frame(&[0x03, 0x01]);
    let frames = vec![interrupt.clone(); 5];
    let (outcome, queued) = demux_frames(&header, &frames, 30);
    assert!(matches!(outcome, ExchangeResult::NoAck));
    assert_eq!(queued.len(), 5);

    let many = vec![interrupt; 40];
    let (outcome, queued) = demux_frames(&header, &many, 30);
    assert!(matches!(outcome, ExchangeResult::NoAck));
    assert_eq!(queued.len(), 30);
}

#[test]
fn demux_ignores_ack_past_the_budget() {
    let header = encode_header(0x106a);
    let interrupt = frame(&[0x03, 0x01]);
    let ack = frame(&[0x11, 0xff, 0x10, 0x6a]);
    let mut frames = vec![interrupt; 3];
    frames.push(ack);
    let (outcome, queued) = demux_frames(&header, &frames, 2);
    assert!(matches!(outcome, ExchangeResult::NoAck));
    assert_eq!(queued.len(), 2);
}

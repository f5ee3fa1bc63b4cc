use quest_makepad_camera_shell::breath_feedback;
use quest_makepad_camera_shell::pose_publisher::{websocket_client_text_frame, websocket_mask};
use quest_makepad_camera_shell::websocket::{
    client_text_frame, frame_extended_len_size, frame_is_masked, frame_payload_len,
    handshake_accepted, handshake_read_more, handshake_request, socket_timeout_ms, unmask_payload,
    MAX_FRAME_PAYLOAD,
};

#[test]
fn client_websocket_frame_is_masked_text() {
    let frame = websocket_client_text_frame(b"{}", 7);
    assert_eq!(frame[0], 0x81);
    assert_ne!(frame[1] & 0x80, 0);
    assert_eq!(frame[1] & 0x7f, 2);
    assert_eq!(frame.len(), 8);
}

fn decode(frame: &[u8]) -> Vec<u8> {
    let b1 = frame[1];
    let ext = frame_extended_len_size(b1);
    let len = frame_payload_len(b1, &frame[2..2 + ext]);
    let mut at = 2 + ext;
    let mut mask = [0u8; 4];
    if frame_is_masked(b1) {
        mask.copy_from_slice(&frame[at..at + 4]);
        at += 4;
    }
    let mut payload = frame[at..at + len].to_vec();
    if frame_is_masked(b1) {
        unmask_payload(&mut payload, mask);
    }
    payload
}

#[test]
fn framed_payload_decodes_back_for_every_length_class() {
    for len in [0usize, 5, 125, 126, 300, 65535, 65536, 70000] {
        let payload: Vec<u8> = (0..len).map(|i| (i % 251) as u8).collect();
        let frame = websocket_client_text_frame(&payload, 42);
        assert_eq!(decode(&frame), payload, "length {len}");
    }
}

#[test]
fn frame_header_length_codes_follow_the_payload_size() {
    let short = client_text_frame(&[1, 2, 3], [0, 0, 0, 0]);
    assert_eq!(short[..2], [0x81, 0x83]);
    let medium = client_text_frame(&vec![0u8; 300], [0, 0, 0, 0]);
    assert_eq!(medium[..4], [0x81, 0xfe, 0x01, 0x2c]);
    let long = client_text_frame(&vec![0u8; 65536], [0, 0, 0, 0]);
    assert_eq!(long[..10], [0x81, 0xff, 0, 0, 0, 0, 0, 1, 0, 0]);
    assert_eq!(long.len(), 10 + 4 + 65536);
}

#[test]
fn payload_bytes_are_masked_with_the_key() {
    let frame = client_text_frame(b"ab", [1, 2, 3, 4]);
    assert_eq!(frame, vec![0x81, 0x82, 1, 2, 3, 4, b'a' ^ 1, b'b' ^ 2]);
}

#[test]
fn masks_differ_between_publisher_and_subscriber_and_by_sequence() {
    let pose = websocket_mask(1);
    let breath = breath_feedback::websocket_mask(1);
    assert_ne!(pose, breath);
    assert_ne!(websocket_mask(1), websocket_mask(2));
    let frame = breath_feedback::websocket_client_text_frame(b"hello", 9);
    assert_eq!(decode(&frame), b"hello".to_vec());
}

#[test]
fn declared_length_is_capped_at_one_mebibyte() {
    let len = frame_payload_len(0xff, &[0, 0, 0, 1, 0, 0, 0, 0]);
    assert_eq!(len, MAX_FRAME_PAYLOAD);
    assert_eq!(frame_payload_len(0x7e, &[0x01, 0x00]), 256);
    assert_eq!(frame_payload_len(0x05, &[]), 5);
    assert_eq!(frame_extended_len_size(0x7e), 2);
    assert_eq!(frame_extended_len_size(0xff), 8);
    assert_eq!(frame_extended_len_size(0x10), 0);
}

#[test]
fn handshake_request_names_host_port_and_key() {
    let request = handshake_request("127.0.0.1", 8765, "a2V5");
    assert_eq!(
        request,
        "GET /manifold/v1/events HTTP/1.1\r\nHost: 127.0.0.1:8765\r\nUpgrade: websocket\r\nConnection: Upgrade\r\nSec-WebSocket-Key: a2V5\r\nSec-WebSocket-Version: 13\r\n\r\n"
    );
}

#[test]
fn handshake_acceptance_requires_switching_protocols() {
    assert!(handshake_accepted(b"HTTP/1.1 101 Switching Protocols\r\n\r\n"));
    assert!(!handshake_accepted(b"HTTP/1.1 400 Bad Request\r\n\r\n"));
    assert!(!handshake_accepted(b"HTTP/1.1 10"));
}

#[test]
fn handshake_reading_stops_at_blank_line_or_limit() {
    assert!(handshake_read_more(b"HTTP/1.1 101\r\n"));
    assert!(!handshake_read_more(b"HTTP/1.1 101\r\n\r\n"));
    assert!(!handshake_read_more(&vec![b'x'; 4096]));
    assert!(handshake_read_more(b""));
}

#[test]
fn socket_timeout_is_clamped() {
    assert_eq!(socket_timeout_ms(10), 50);
    assert_eq!(socket_timeout_ms(250), 250);
    assert_eq!(socket_timeout_ms(60_000), 5_000);
}

use dashahan::frame::handshake_rejection;
use dashahan::frame::{
    base64, frame_action, handshake_accepted, handshake_request, handshake_step, open_request,
    parse_frame, pong_frame, pong_reply, Frame, FrameAction, FrameParse, HandshakeStep, MAX_FRAME,
};

fn complete(buf: &[u8]) -> (bool, u8, Vec<u8>, usize) {
    match parse_frame(buf) {
        FrameParse::Complete(f, n) => (f.fin, f.opcode, f.payload, n),
        FrameParse::NeedMore(n) => panic!("need more: {n}"),
        FrameParse::TooLarge => panic!("too large"),
    }
}

fn need_more(buf: &[u8]) -> usize {
    match parse_frame(buf) {
        FrameParse::NeedMore(n) => n,
        _ => panic!("expected NeedMore"),
    }
}

#[test]
fn parse_short_text_frame() {
    let buf = [0x81, 0x03, b'a', b'b', b'c', 0xFF];
    assert_eq!(complete(&buf), (true, 1, b"abc".to_vec(), 5));
}

#[test]
fn parse_asks_for_missing_bytes() {
    assert_eq!(need_more(&[]), 2);
    assert_eq!(need_more(&[0x81]), 2);
    assert_eq!(need_more(&[0x81, 0x05, b'a']), 7);
    // 16-bit length: header of 4 bytes first, then header + payload.
    assert_eq!(need_more(&[0x81, 126]), 4);
    assert_eq!(need_more(&[0x81, 126, 0x01, 0x00]), 4 + 256);
    // Masked: 4 key bytes belong to the header.
    assert_eq!(need_more(&[0x81, 0x82]), 6);
    // 64-bit length.
    assert_eq!(need_more(&[0x82, 127, 0, 0, 0, 0, 0, 0]), 10);
}

#[test]
fn parse_extended_lengths() {
    let mut buf = vec![0x81, 126, 0x00, 0x80];
    buf.extend(std::iter::repeat(7u8).take(128));
    let (fin, op, payload, n) = complete(&buf);
    assert!(fin);
    assert_eq!(op, 1);
    assert_eq!(payload.len(), 128);
    assert_eq!(n, 132);

    let mut buf = vec![0x02, 127, 0, 0, 0, 0, 0, 0, 0x01, 0x00];
    buf.extend(std::iter::repeat(1u8).take(256));
    let (fin, op, payload, n) = complete(&buf);
    assert!(!fin);
    assert_eq!(op, 2);
    assert_eq!(payload.len(), 256);
    assert_eq!(n, 266);
}

#[test]
fn parse_unmasks_payload() {
    // RFC 6455 5.7: masked "Hello".
    let buf = [0x81, 0x85, 0x37, 0xfa, 0x21, 0x3d, 0x7f, 0x9f, 0x4d, 0x51, 0x58];
    assert_eq!(complete(&buf), (true, 1, b"Hello".to_vec(), 11));
}

#[test]
fn parse_refuses_oversized_frame() {
    let len = MAX_FRAME + 1;
    let mut buf = vec![0x81, 127];
    buf.extend_from_slice(&len.to_be_bytes());
    assert!(matches!(parse_frame(&buf), FrameParse::TooLarge));
    let mut ok = vec![0x81, 127];
    ok.extend_from_slice(&MAX_FRAME.to_be_bytes());
    assert_eq!(need_more(&ok), 10 + MAX_FRAME as usize);
}

#[test]
fn frame_actions() {
    let f = |fin, opcode| Frame { fin, opcode, payload: vec![] };
    assert_eq!(frame_action(&f(true, 1)), FrameAction::Text);
    assert_eq!(frame_action(&f(false, 1)), FrameAction::Skip);
    assert_eq!(frame_action(&f(true, 9)), FrameAction::Pong);
    assert_eq!(frame_action(&f(false, 9)), FrameAction::Pong);
    assert_eq!(frame_action(&f(true, 8)), FrameAction::Close);
    assert_eq!(frame_action(&f(true, 0)), FrameAction::Skip);
    assert_eq!(frame_action(&f(true, 2)), FrameAction::Skip);
}

#[test]
fn pong_frames() {
    // Client frames are masked: MASK bit, the key, then the payload XOR key.
    let key = [1u8, 2, 3, 4];
    assert_eq!(pong_frame(b"hi", key), vec![0x8A, 0x82, 1, 2, 3, 4, b'h' ^ 1, b'i' ^ 2]);
    assert_eq!(pong_frame(&[], key), vec![0x8A, 0x80, 1, 2, 3, 4]);
    let big = vec![9u8; 300];
    let f = pong_frame(&big, key);
    assert_eq!(&f[..8], &[0x8A, 0xFE, 0x01, 0x2C, 1, 2, 3, 4]);
    assert_eq!(f.len(), 308);
    assert_eq!(f[8..12], [9 ^ 1, 9 ^ 2, 9 ^ 3, 9 ^ 4]);
    // Lengths past 16 bits are written modulo 65536.
    let huge = vec![0u8; 65536 + 5];
    assert_eq!(&pong_frame(&huge, key)[..4], &[0x8A, 0xFE, 0, 5]);
}

#[test]
fn pong_round_trip() {
    for n in [0usize, 1, 125, 126, 300, 65535] {
        let p: Vec<u8> = (0..n).map(|i| (i % 251) as u8).collect();
        let f = pong_frame(&p, [0x37, 0xfa, 0x21, 0x3d]);
        assert_eq!(complete(&f), (true, 0xA, p, f.len()));
    }
}

#[test]
fn pong_reply_is_masked_pong() {
    let p = b"ping-payload".to_vec();
    let f = pong_reply(&p).expect("random source");
    assert_eq!(f.len(), 6 + p.len());
    assert_eq!(f[0], 0x8A);
    assert_eq!(f[1], 0x80 | p.len() as u8);
    for i in 0..p.len() {
        assert_eq!(f[6 + i] ^ f[2 + i % 4], p[i]);
    }
    assert_eq!(complete(&f), (true, 0xA, p, f.len()));
}

#[test]
fn base64_encodings() {
    assert_eq!(base64(b"the sample nonce"), "dGhlIHNhbXBsZSBub25jZQ==");
    assert_eq!(base64(b""), "");
    assert_eq!(base64(b"f"), "Zg==");
    assert_eq!(base64(b"fo"), "Zm8=");
    assert_eq!(base64(b"foo"), "Zm9v");
    assert_eq!(base64(b"foobar"), "Zm9vYmFy");
    assert_eq!(base64(&[0xFB, 0xFF]), "+/8=");
}

#[test]
fn handshake_request_text() {
    assert_eq!(
        handshake_request("127.0.0.1:49598", b"the sample nonce"),
        "GET /api/events.mux HTTP/1.1\r\nHost: 127.0.0.1:49598\r\nUpgrade: websocket\r\nConnection: Upgrade\r\nSec-WebSocket-Key: dGhlIHNhbXBsZSBub25jZQ==\r\nSec-WebSocket-Version: 13\r\n\r\n"
    );
}

#[test]
fn open_request_uses_fresh_key() {
    let head = "GET /api/events.mux HTTP/1.1\r\nHost: h:1\r\nUpgrade: websocket\r\nConnection: Upgrade\r\nSec-WebSocket-Key: ";
    let tail = "\r\nSec-WebSocket-Version: 13\r\n\r\n";
    let a = open_request("h:1").expect("random source");
    let b = open_request("h:1").expect("random source");
    for req in [&a, &b] {
        assert!(req.starts_with(head) && req.ends_with(tail));
        let key = &req[head.len()..req.len() - tail.len()];
        // 16 bytes in base64: 22 characters and "==".
        assert_eq!(key.len(), 24);
        assert!(key.ends_with("=="));
    }
    assert_ne!(a, b);
}

#[test]
fn handshake_reading() {
    assert_eq!(handshake_step(b"HTTP/1.1 101 Switching"), HandshakeStep::Continue);
    assert_eq!(handshake_step(b"HTTP/1.1 101 OK\r\n\r\n"), HandshakeStep::Complete);
    assert_eq!(handshake_step(b"\r\n\r"), HandshakeStep::Continue);
    assert_eq!(handshake_step(&vec![b'a'; 8193]), HandshakeStep::TooLarge);
    assert_eq!(handshake_step(&vec![b'a'; 8192]), HandshakeStep::Continue);
    assert!(handshake_accepted(b"HTTP/1.1 101 Switching Protocols\r\n\r\n"));
    assert!(!handshake_accepted(b"HTTP/1.1 400 Bad Request\r\n\r\n"));
    assert!(!handshake_accepted(b"HTTP/1.1 10"));
}

#[test]
fn handshake_rejection_names_status_line() {
    assert_eq!(
        handshake_rejection("HTTP/1.1 400 Bad Request\r\nServer: x\r\n\r\n"),
        "handshake rejected: HTTP/1.1 400 Bad Request"
    );
    assert_eq!(handshake_rejection(""), "handshake rejected: ");
    assert_eq!(handshake_rejection("HTTP/1.1 10"), "handshake rejected: HTTP/1.1 10");
}

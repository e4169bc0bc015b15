//! WebSocket framing for the dsh event stream (RFC 6455, the subset the
//! stream uses): decoding one frame from the bytes read so far, unmasking,
//! the decision taken for each frame, the Pong reply, and the opening
//! handshake's request and response checks.
use vstd::prelude::*;
use crate::server::{lines, lines_spec};

verus! {

/// Largest payload, in bytes, that the event stream reader accepts for one frame.
pub const MAX_FRAME: u64 = 4194304;

/// Largest response head, in bytes, accepted during the opening handshake.
pub const MAX_HANDSHAKE: usize = 8192;

/// `256` raised to `n`.
pub open spec fn pow256(n: nat) -> nat
    decreases n,
{
    if n == 0 {
        1
    } else {
        256 * pow256((n - 1) as nat)
    }
}

/// The unsigned integer that `s` encodes in network (big-endian) byte order.
pub open spec fn be_value(s: Seq<u8>) -> nat
    decreases s.len(),
{
    if s.len() == 0 {
        0
    } else {
        be_value(s.drop_last()) * 256 + s.last() as nat
    }
}

/// FIN bit of the first header byte.
pub open spec fn fin_bit(b0: u8) -> bool {
    b0 >= 128
}

/// Opcode: the low four bits of the first header byte.
pub open spec fn opcode_of(b0: u8) -> u8 {
    (b0 % 16) as u8
}

/// MASK bit of the second header byte.
pub open spec fn mask_bit(b1: u8) -> bool {
    b1 >= 128
}

/// The 7-bit length field of the second header byte.
pub open spec fn len7(b1: u8) -> int {
    (b1 % 128) as int
}

/// Number of extended-length bytes that follow the first two header bytes.
pub open spec fn ext_len(b1: u8) -> int {
    if len7(b1) == 126 {
        2
    } else if len7(b1) == 127 {
        8
    } else {
        0
    }
}

/// Total header length: two fixed bytes, the extended length, the mask key.
pub open spec fn header_len(b1: u8) -> int {
    2 + ext_len(b1) + if mask_bit(b1) {
        4int
    } else {
        0int
    }
}

/// Payload length announced by a header whose bytes start `buf`.
pub open spec fn payload_len(buf: Seq<u8>) -> int
    recommends
        buf.len() >= header_len(buf[1]),
{
    if ext_len(buf[1]) == 0 {
        len7(buf[1])
    } else {
        be_value(buf.subrange(2, 2 + ext_len(buf[1]))) as int
    }
}

/// Payload of the frame at the start of `buf`, with the mask key applied when
/// the MASK bit is set (byte `i` is XORed with key byte `i % 4`).
pub open spec fn frame_payload(buf: Seq<u8>) -> Seq<u8>
    recommends
        buf.len() >= 2,
        buf.len() >= header_len(buf[1]) + payload_len(buf),
{
    let hl = header_len(buf[1]);
    let key = 2 + ext_len(buf[1]);
    Seq::new(
        payload_len(buf) as nat,
        |i: int|
            if mask_bit(buf[1]) {
                buf[hl + i] ^ buf[key + i % 4]
            } else {
                buf[hl + i]
            },
    )
}

/// What the bytes read so far say about the next frame.
pub enum ParsedFrame {
    /// More bytes are needed: at least this many in all.
    NeedMore(int),
    /// The announced payload is over `MAX_FRAME`.
    TooLarge,
    /// A whole frame, which takes up the first `consumed` bytes.
    Complete { fin: bool, opcode: u8, payload: Seq<u8>, consumed: int },
}

/// The reading of `buf` as the start of a frame.
pub open spec fn parse_frame_spec(buf: Seq<u8>) -> ParsedFrame {
    if buf.len() < 2 {
        ParsedFrame::NeedMore(2)
    } else if buf.len() < header_len(buf[1]) {
        ParsedFrame::NeedMore(header_len(buf[1]))
    } else if payload_len(buf) > MAX_FRAME {
        ParsedFrame::TooLarge
    } else if buf.len() < header_len(buf[1]) + payload_len(buf) {
        ParsedFrame::NeedMore(header_len(buf[1]) + payload_len(buf))
    } else {
        ParsedFrame::Complete {
            fin: fin_bit(buf[0]),
            opcode: opcode_of(buf[0]),
            payload: frame_payload(buf),
            consumed: header_len(buf[1]) + payload_len(buf),
        }
    }
}

/// A decoded frame.
pub struct Frame {
    pub fin: bool,
    pub opcode: u8,
    /// Unmasked payload.
    pub payload: Vec<u8>,
}

/// Result of [`parse_frame`].
pub enum FrameParse {
    /// Read until the buffer holds at least this many bytes, then parse again.
    NeedMore(usize),
    /// The frame announces a payload over `MAX_FRAME`: the stream is dropped.
    TooLarge,
    /// A whole frame and the number of bytes it took up.
    Complete(Frame, usize),
}

impl View for FrameParse {
    type V = ParsedFrame;

    open spec fn view(&self) -> ParsedFrame {
        match self {
            FrameParse::NeedMore(n) => ParsedFrame::NeedMore(*n as int),
            FrameParse::TooLarge => ParsedFrame::TooLarge,
            FrameParse::Complete(f, n) => ParsedFrame::Complete {
                fin: f.fin,
                opcode: f.opcode,
                payload: f.payload@,
                consumed: *n as int,
            },
        }
    }
}

proof fn lemma_be_value_bound(s: Seq<u8>)
    ensures
        be_value(s) < pow256(s.len()),
    decreases s.len(),
{
    if s.len() > 0 {
        lemma_be_value_bound(s.drop_last());
        let v = be_value(s.drop_last());
        let p = pow256((s.len() - 1) as nat);
        let b = s.last() as nat;
        assert(v * 256 + b < 256 * p) by (nonlinear_arith)
            requires
                v < p,
                b < 256,
        ;
    }
}

/// Reads `k` bytes of `buf` from offset `start` as a big-endian integer.
fn read_be(buf: &[u8], start: usize, k: usize) -> (v: u64)
    requires
        k <= 8,
        start + k <= buf@.len(),
    ensures
        v as nat == be_value(buf@.subrange(start as int, start + k)),
{
    let total = buf.len();
    let mut v: u64 = 0;
    let mut i: usize = 0;
    while i < k
        invariant
            k <= 8,
            i <= k,
            start + k <= buf@.len(),
            total == buf@.len(),
            v as nat == be_value(buf@.subrange(start as int, start + i)),
        decreases k - i,
    {
        proof {
            let s = buf@.subrange(start as int, start + i);
            lemma_be_value_bound(s);
            assert(pow256(i as nat) <= pow256(7)) by {
                lemma_pow256_mono(i as nat, 7);
            }
            assert(pow256(7) == 72057594037927936nat) by {
                reveal_with_fuel(pow256, 8);
            }
            let b = buf@[start + i] as nat;
            assert(v * 256 + b <= 18446744073709551615nat) by (nonlinear_arith)
                requires
                    v < 72057594037927936nat,
                    b < 256,
            ;
            assert(buf@.subrange(start as int, start + i + 1).drop_last() =~= s);
        }
        v = v * 256 + buf[start + i] as u64;
        i = i + 1;
    }
    v
}

proof fn lemma_pow256_mono(a: nat, b: nat)
    requires
        a <= b,
    ensures
        pow256(a) <= pow256(b),
    decreases b,
{
    if a < b {
        lemma_pow256_mono(a, (b - 1) as nat);
    }
}

/// Decodes the frame at the start of `buf` (the bytes read so far): says how
/// many bytes are still needed, refuses a payload over `MAX_FRAME`, or hands
/// out the frame with its payload unmasked.
pub fn parse_frame(buf: &[u8]) -> (r: FrameParse)
    ensures
        r@ == parse_frame_spec(buf@),
{
    if buf.len() < 2 {
        return FrameParse::NeedMore(2);
    }
    let b0 = buf[0];
    let b1 = buf[1];
    let fin = b0 & 0x80 != 0;
    let opcode = b0 & 0x0F;
    let masked = b1 & 0x80 != 0;
    let short_len = b1 & 0x7F;
    proof {
        assert((b0 & 0x80 != 0) == (b0 >= 128)) by (bit_vector);
        assert(b0 & 0x0F == b0 % 16) by (bit_vector);
        assert((b1 & 0x80 != 0) == (b1 >= 128)) by (bit_vector);
        assert(b1 & 0x7F == b1 % 128) by (bit_vector);
    }
    let ext: usize = if short_len == 126 {
        2
    } else if short_len == 127 {
        8
    } else {
        0
    };
    let hl: usize = 2 + ext + if masked {
        4
    } else {
        0
    };
    assert(hl == header_len(buf@[1]));
    if buf.len() < hl {
        return FrameParse::NeedMore(hl);
    }
    let len: u64 = if ext == 0 {
        short_len as u64
    } else {
        read_be(buf, 2, ext)
    };
    assert(len == payload_len(buf@));
    if len > MAX_FRAME {
        return FrameParse::TooLarge;
    }
    let n = len as usize;
    if buf.len() - hl < n {
        return FrameParse::NeedMore(hl + n);
    }
    let key = 2 + ext;
    let mut payload: Vec<u8> = Vec::new();
    let mut i: usize = 0;
    while i < n
        invariant
            i <= n,
            hl + n <= buf@.len(),
            buf@.len() <= usize::MAX,
            key + 4 <= hl || !masked,
            hl == header_len(buf@[1]),
            key == 2 + ext_len(buf@[1]),
            masked == mask_bit(buf@[1]),
            n == payload_len(buf@),
            payload@ =~= frame_payload(buf@).take(i as int),
        decreases n - i,
    {
        let b = if masked {
            buf[hl + i] ^ buf[key + i % 4]
        } else {
            buf[hl + i]
        };
        payload.push(b);
        i = i + 1;
    }
    assert(frame_payload(buf@).take(n as int) =~= frame_payload(buf@));
    FrameParse::Complete(Frame { fin, opcode, payload }, hl + n)
}

/// What the reader does with a decoded frame.
#[derive(PartialEq, Eq, Structural, Debug, Clone, Copy)]
pub enum FrameAction {
    /// A complete text message: hand the payload on.
    Text,
    /// A Ping: answer with a Pong that echoes the payload, then read on.
    Pong,
    /// A Close: the stream ended normally.
    Close,
    /// A fragment, a binary or an unknown frame: drop it and read on.
    Skip,
}

/// The action for a frame with these FIN bit and opcode.
pub open spec fn frame_action_spec(fin: bool, opcode: u8) -> FrameAction {
    if opcode == 1 && fin {
        FrameAction::Text
    } else if opcode == 9 {
        FrameAction::Pong
    } else if opcode == 8 {
        FrameAction::Close
    } else {
        FrameAction::Skip
    }
}

/// Decides what the reader does with `frame`.
pub fn frame_action(frame: &Frame) -> (a: FrameAction)
    ensures
        a == frame_action_spec(frame.fin, frame.opcode),
{
    if frame.opcode == 1 && frame.fin {
        FrameAction::Text
    } else if frame.opcode == 9 {
        FrameAction::Pong
    } else if frame.opcode == 8 {
        FrameAction::Close
    } else {
        FrameAction::Skip
    }
}

/// The Pong frame that answers a Ping with payload `p`, masked with `key`
/// as every client frame is (RFC 6455 5.1): FIN and opcode 0xA; the MASK bit
/// with a 7-bit length under 126, else with 126 and the length as a 16-bit
/// big-endian number (reduced modulo 65536); the 4 key bytes; then payload
/// byte `i` XORed with key byte `i % 4`.
pub open spec fn pong_bytes(p: Seq<u8>, key: Seq<u8>) -> Seq<u8> {
    let head = if p.len() < 126 {
        seq![0x8Au8, (128 + p.len()) as u8]
    } else {
        seq![0x8Au8, 254u8, ((p.len() % 65536) / 256) as u8, (p.len() % 256) as u8]
    };
    head + key + Seq::new(p.len(), |i: int| p[i] ^ key[i % 4])
}

/// Builds the masked Pong reply to a Ping whose payload is `payload`.
pub fn pong_frame(payload: &[u8], key: [u8; 4]) -> (frame: Vec<u8>)
    ensures
        frame@ == pong_bytes(payload@, key@),
{
    let n = payload.len();
    let mut frame: Vec<u8> = Vec::new();
    frame.push(0x8A);
    if n < 126 {
        frame.push(128 + n as u8);
    } else {
        let m = n % 65536;
        frame.push(254);
        frame.push((m / 256) as u8);
        frame.push((m % 256) as u8);
    }
    frame.push(key[0]);
    frame.push(key[1]);
    frame.push(key[2]);
    frame.push(key[3]);
    let ghost head = frame@;
    let ghost masked = Seq::new(n as nat, |i: int| payload@[i] ^ key@[i % 4]);
    let mut i: usize = 0;
    while i < n
        invariant
            i <= n,
            n == payload@.len(),
            masked == Seq::new(n as nat, |i: int| payload@[i] ^ key@[i % 4]),
            frame@ =~= head + masked.take(i as int),
        decreases n - i,
    {
        frame.push(payload[i] ^ key[i % 4]);
        i = i + 1;
    }
    assert(masked.take(n as int) =~= masked);
    assert(head =~= (if n < 126 {
        seq![0x8Au8, (128 + n) as u8]
    } else {
        seq![0x8Au8, 254u8, ((n % 65536) / 256) as u8, (n % 256) as u8]
    }) + key@);
    frame
}

proof fn lemma_xor_twice(x: u8, k: u8)
    ensures
        (x ^ k) ^ k == x,
{
    assert((x ^ k) ^ k == x) by (bit_vector);
}

/// Reading back a Pong reply: for a payload under 65536 bytes and any 4-byte
/// key, the frame that [`pong_frame`] builds decodes to a final Pong frame
/// (opcode 0xA) with the same payload, taking up exactly the bytes built.
pub proof fn pong_frame_round_trip(p: Seq<u8>, key: Seq<u8>)
    requires
        p.len() < 65536,
        key.len() == 4,
    ensures
        parse_frame_spec(pong_bytes(p, key)) == (ParsedFrame::Complete {
            fin: true,
            opcode: 10u8,
            payload: p,
            consumed: pong_bytes(p, key).len() as int,
        }),
{
    let b = pong_bytes(p, key);
    let b1 = b[1];
    assert(fin_bit(b[0]));
    assert(opcode_of(b[0]) == 10);
    assert(mask_bit(b1));
    let ext: int = if p.len() < 126 { 0 } else { 2 };
    if p.len() < 126 {
        assert(len7(b1) == p.len());
        assert(ext_len(b1) == 0);
        assert(header_len(b1) == 6);
    } else {
        assert(len7(b1) == 126);
        assert(header_len(b1) == 8);
        let hi = ((p.len() % 65536) / 256) as u8;
        let lo = (p.len() % 256) as u8;
        let s = b.subrange(2, 4);
        assert(s.drop_last() =~= seq![hi]);
        assert(seq![hi].drop_last() =~= Seq::<u8>::empty());
        assert(seq![hi].last() == hi);
        assert(be_value(Seq::<u8>::empty()) == 0);
        assert(be_value(seq![hi]) == hi as nat);
        assert(s.last() == lo);
        assert(be_value(s) == hi as nat * 256 + lo as nat);
        assert(payload_len(b) == p.len());
    }
    assert(payload_len(b) == p.len());
    assert(b.len() == header_len(b1) + p.len());
    assert forall|i: int| 0 <= i < p.len() implies #[trigger] frame_payload(b)[i] == p[i] by {
        assert(b[2 + ext + i % 4] == key[i % 4]);
        assert(b[header_len(b1) + i] == p[i] ^ key[i % 4]);
        lemma_xor_twice(p[i], key[i % 4]);
    }
    assert(frame_payload(b) =~= p);
}

/// What the reader does with each decoded frame, by RFC 6455 opcode: a final
/// text frame (opcode 1) is handed on, a Ping (9) is answered, a Close (8)
/// ends the stream, whether final or not; every other frame (continuation,
/// binary, unknown, or a text fragment) is skipped.
pub proof fn frame_action_by_opcode(fin: bool, opcode: u8)
    ensures
        frame_action_spec(fin, opcode) == FrameAction::Text <==> fin && opcode == 1,
        frame_action_spec(fin, opcode) == FrameAction::Pong <==> opcode == 9,
        frame_action_spec(fin, opcode) == FrameAction::Close <==> opcode == 8,
        frame_action_spec(fin, opcode) == FrameAction::Skip <==> !(fin && opcode == 1) && opcode != 9
            && opcode != 8,
{
}

/// `n` written as `k` bytes in network (big-endian) order.
pub open spec fn be_bytes(n: nat, k: nat) -> Seq<u8>
    decreases k,
{
    if k == 0 {
        Seq::empty()
    } else {
        be_bytes(n / 256, (k - 1) as nat).push((n % 256) as u8)
    }
}

/// Whether a payload of `n` bytes can be announced with `ext` extended-length
/// bytes: none for under 126, 2 for under 65536, 8 for any length (RFC 6455
/// 5.2 asks for the shortest, a reader takes each).
pub open spec fn fits_length(n: nat, ext: nat) -> bool {
    ||| ext == 0 && n < 126
    ||| ext == 2 && n < 65536
    ||| ext == 8 && n <= 0xFFFF_FFFF_FFFF_FFFFnat
}

/// The length part of a frame header for a payload of `n` bytes with `ext`
/// extended-length bytes: the MASK bit with `n` itself (no extension), with
/// 126 and `n` in 2 bytes, or with 127 and `n` in 8 bytes.
pub open spec fn length_field(n: nat, masked: bool, ext: nat) -> Seq<u8> {
    let m: int = if masked {
        128
    } else {
        0
    };
    if ext == 0 {
        seq![(m + n) as u8]
    } else if ext == 2 {
        seq![(m + 126) as u8] + be_bytes(n, 2)
    } else {
        seq![(m + 127) as u8] + be_bytes(n, 8)
    }
}

/// The bytes of a frame with first byte `b0` (FIN and opcode) carrying the
/// payload `p` with `ext` extended-length bytes: unmasked as a server sends
/// it when `key` is `None`, else masked with the 4-byte `key` as a client
/// sends it.
pub open spec fn encode_frame(b0: u8, p: Seq<u8>, key: Option<Seq<u8>>, ext: nat) -> Seq<u8> {
    match key {
        None => seq![b0] + length_field(p.len(), false, ext) + p,
        Some(k) => seq![b0] + length_field(p.len(), true, ext) + k + Seq::new(
            p.len(),
            |i: int| p[i] ^ k[i % 4],
        ),
    }
}

proof fn lemma_be_bytes(n: nat, k: nat)
    requires
        n < pow256(k),
    ensures
        be_bytes(n, k).len() == k,
        be_value(be_bytes(n, k)) == n,
    decreases k,
{
    if k > 0 {
        let q = pow256((k - 1) as nat);
        assert(n / 256 < q) by (nonlinear_arith)
            requires
                n < 256 * q,
        ;
        lemma_be_bytes(n / 256, (k - 1) as nat);
        let b = be_bytes(n, k);
        assert(b.drop_last() =~= be_bytes(n / 256, (k - 1) as nat));
        assert(b.last() == (n % 256) as u8);
        assert((n / 256) * 256 + n % 256 == n);
    }
}

proof fn lemma_encoded_header(b0: u8, p: Seq<u8>, key: Option<Seq<u8>>, ext: nat, buf: Seq<u8>)
    requires
        key matches Some(k) ==> k.len() == 4,
        fits_length(p.len(), ext),
        buf.len() >= 2,
        buf[0] == encode_frame(b0, p, key, ext)[0],
        buf[1] == encode_frame(b0, p, key, ext)[1],
    ensures
        encode_frame(b0, p, key, ext).len() == 2 + ext + (if key is Some {
            4int
        } else {
            0int
        }) + p.len(),
        buf[0] == b0,
        mask_bit(buf[1]) == key is Some,
        ext_len(buf[1]) == ext,
        header_len(buf[1]) == 2 + ext + (if key is Some {
            4int
        } else {
            0int
        }),
        ext == 0 ==> len7(buf[1]) == p.len(),
        ext > 0 ==> encode_frame(b0, p, key, ext).subrange(2, 2 + ext as int)
            == be_bytes(p.len(), ext),
        ext > 0 ==> be_value(be_bytes(p.len(), ext)) == p.len(),
{
    let n = p.len();
    let f = encode_frame(b0, p, key, ext);
    let masked = key is Some;
    let lf = length_field(n, masked, ext);
    assert(pow256(2) == 65536) by {
        reveal_with_fuel(pow256, 3);
    }
    assert(pow256(8) == 0x1_0000_0000_0000_0000nat) by {
        reveal_with_fuel(pow256, 9);
    }
    if ext == 2 {
        lemma_be_bytes(n, 2);
    } else if ext == 8 {
        lemma_be_bytes(n, 8);
    }
    assert(f[0] == b0);
    assert(f[1] == lf[0]);
    let e = ext as int;
    if e > 0 {
        assert(f.subrange(2, 2 + e) =~= be_bytes(n, e as nat)) by {
            assert forall|i: int| 0 <= i < e implies f[2 + i] == #[trigger] be_bytes(n, e as nat)[i] by {
                assert(lf[1 + i] == be_bytes(n, e as nat)[i]);
            }
        }
    }
    match key {
        None => assert(f.len() == 1 + lf.len() + n),
        Some(k) => assert(f.len() == 1 + lf.len() + 4 + n),
    }
}

/// Frames read back: for any first byte, any payload, any length encoding
/// that fits it (7, 16 or 64 bits) and either way of sending (unmasked, or
/// masked with any 4-byte key), the frame followed by any further bytes
/// decodes to that FIN bit, opcode and payload, taking up exactly the
/// frame's bytes; a payload over `MAX_FRAME` is refused instead.
pub proof fn frame_round_trip(b0: u8, p: Seq<u8>, key: Option<Seq<u8>>, ext: nat, rest: Seq<u8>)
    requires
        key matches Some(k) ==> k.len() == 4,
        fits_length(p.len(), ext),
    ensures
        p.len() <= MAX_FRAME ==> parse_frame_spec(encode_frame(b0, p, key, ext) + rest) == (ParsedFrame::Complete {
            fin: b0 >= 128,
            opcode: (b0 % 16) as u8,
            payload: p,
            consumed: encode_frame(b0, p, key, ext).len() as int,
        }),
        p.len() > MAX_FRAME ==> parse_frame_spec(encode_frame(b0, p, key, ext) + rest) == ParsedFrame::TooLarge,
{
    let f = encode_frame(b0, p, key, ext);
    let buf = f + rest;
    let n = p.len();
    lemma_encoded_header(b0, p, key, ext, buf);
    let b1 = buf[1];
    let e = ext as int;
    let hl = header_len(b1);
    if e > 0 {
        assert(buf.subrange(2, 2 + e) =~= f.subrange(2, 2 + e));
    }
    assert(payload_len(buf) == n);
    assert(buf.len() >= hl + n);
    if n <= MAX_FRAME {
        assert forall|i: int| 0 <= i < n implies #[trigger] frame_payload(buf)[i] == p[i] by {
            match key {
                None => {
                    assert(buf[hl + i] == f[hl + i]);
                    assert(f[hl + i] == p[i]);
                },
                Some(k) => {
                    assert(buf[2 + e + i % 4] == k[i % 4]);
                    assert(buf[hl + i] == p[i] ^ k[i % 4]);
                    lemma_xor_twice(p[i], k[i % 4]);
                },
            }
        }
        assert(frame_payload(buf) =~= p);
    }
}

/// A frame is never decoded early nor waited on for too long: for any proper
/// prefix of a frame within the size limit, the reader is told to read more,
/// up to a length no longer than the whole frame.
pub proof fn partial_frame_needs_more(b0: u8, p: Seq<u8>, key: Option<Seq<u8>>, ext: nat, j: int)
    requires
        key matches Some(k) ==> k.len() == 4,
        fits_length(p.len(), ext),
        p.len() <= MAX_FRAME,
        0 <= j < encode_frame(b0, p, key, ext).len(),
    ensures
        parse_frame_spec(encode_frame(b0, p, key, ext).take(j)) matches ParsedFrame::NeedMore(k) && j < k
            && k <= encode_frame(b0, p, key, ext).len(),
{
    let f = encode_frame(b0, p, key, ext);
    let q = f.take(j);
    let n = p.len();
    if j >= 2 {
        lemma_encoded_header(b0, p, key, ext, q);
        let e = ext as int;
        let hl = header_len(q[1]);
        if j >= hl {
            if e > 0 {
                assert(q.subrange(2, 2 + e) =~= f.subrange(2, 2 + e));
            }
            assert(payload_len(q) == n);
        }
    } else {
        lemma_encoded_header(b0, p, key, ext, f);
    }
}

/// The 64 characters of the base64 alphabet (RFC 4648), in order.
pub open spec fn b64_alphabet() -> Seq<char> {
    "ABCDEFGHIJKLMNOPQRSTUVWXYZabcdefghijklmnopqrstuvwxyz0123456789+/"@
}

/// Base64 (RFC 4648, with '=' padding) of `s`: each group of three bytes
/// gives four characters of six bits each.
pub open spec fn base64_spec(s: Seq<u8>) -> Seq<char>
    decreases s.len(),
{
    let a = b64_alphabet();
    if s.len() == 0 {
        Seq::empty()
    } else {
        let x0 = s[0] as int;
        if s.len() == 1 {
            seq![a[x0 / 4], a[(x0 % 4) * 16], '=', '=']
        } else {
            let x1 = s[1] as int;
            if s.len() == 2 {
                seq![a[x0 / 4], a[(x0 % 4) * 16 + x1 / 16], a[(x1 % 16) * 4], '=']
            } else {
                let x2 = s[2] as int;
                seq![a[x0 / 4], a[(x0 % 4) * 16 + x1 / 16], a[(x1 % 16) * 4 + x2 / 64], a[x2 % 64]]
                    + base64_spec(s.skip(3))
            }
        }
    }
}

/// Appends the base64 digit `i` to `out`.
fn push_b64(out: &mut String, i: u8)
    requires
        i < 64,
    ensures
        final(out)@ == old(out)@.push(b64_alphabet()[i as int]),
{
    let alphabet = "ABCDEFGHIJKLMNOPQRSTUVWXYZabcdefghijklmnopqrstuvwxyz0123456789+/";
    proof {
        reveal_strlit("ABCDEFGHIJKLMNOPQRSTUVWXYZabcdefghijklmnopqrstuvwxyz0123456789+/");
    }
    let one = alphabet.substring_char(i as usize, i as usize + 1);
    assert(one@ =~= seq![b64_alphabet()[i as int]]);
    out.append(one);
}

/// Encodes `bytes` in base64 with padding.
pub fn base64(bytes: &[u8]) -> (out: String)
    ensures
        out@ == base64_spec(bytes@),
{
    proof {
        reveal_strlit("=");
    }
    let n = bytes.len();
    let mut out = String::new();
    let mut i: usize = 0;
    assert(bytes@.skip(0) =~= bytes@);
    while i < n
        invariant
            n == bytes@.len(),
            i <= n,
            "="@ == seq!['='],
            base64_spec(bytes@) == out@ + base64_spec(bytes@.skip(i as int)),
        decreases n - i,
    {
        let rest = Ghost(bytes@.skip(i as int));
        let b0 = bytes[i];
        push_b64(&mut out, b0 / 4);
        if n - i == 1 {
            push_b64(&mut out, (b0 % 4) * 16);
            out.append("=");
            out.append("=");
            assert(base64_spec(rest@) =~= seq![b64_alphabet()[b0 as int / 4], b64_alphabet()[(b0 as int % 4) * 16], '=', '=']);
            assert(bytes@.skip(n as int) =~= Seq::<u8>::empty());
            i = n;
        } else {
            let b1 = bytes[i + 1];
            push_b64(&mut out, (b0 % 4) * 16 + b1 / 16);
            if n - i == 2 {
                push_b64(&mut out, (b1 % 16) * 4);
                out.append("=");
                assert(bytes@.skip(n as int) =~= Seq::<u8>::empty());
                i = n;
            } else {
                let b2 = bytes[i + 2];
                push_b64(&mut out, (b1 % 16) * 4 + b2 / 64);
                push_b64(&mut out, b2 % 64);
                assert(rest@.skip(3) =~= bytes@.skip(i + 3));
                i = i + 3;
            }
        }
        assert(base64_spec(bytes@) =~= out@ + base64_spec(bytes@.skip(i as int)));
    }
    assert(bytes@.skip(n as int) =~= Seq::<u8>::empty());
    out
}

/// The HTTP Upgrade request that opens the event stream on `target`
/// ("host:port"), with `nonce` in base64 as the Sec-WebSocket-Key.
pub open spec fn handshake_request_spec(target: Seq<char>, nonce: Seq<u8>) -> Seq<char> {
    "GET /api/events.mux HTTP/1.1\r\nHost: "@ + target
        + "\r\nUpgrade: websocket\r\nConnection: Upgrade\r\nSec-WebSocket-Key: "@ + base64_spec(
        nonce,
    ) + "\r\nSec-WebSocket-Version: 13\r\n\r\n"@
}

/// Builds the opening handshake request for `target` with the key `nonce`.
pub fn handshake_request(target: &str, nonce: &[u8]) -> (req: String)
    ensures
        req@ == handshake_request_spec(target@, nonce@),
{
    let mut req = String::from_str("GET /api/events.mux HTTP/1.1\r\nHost: ");
    req.append(target);
    req.append("\r\nUpgrade: websocket\r\nConnection: Upgrade\r\nSec-WebSocket-Key: ");
    let key = base64(nonce);
    req.append(key.as_str());
    req.append("\r\nSec-WebSocket-Version: 13\r\n\r\n");
    req
}

/// Where reading the handshake response stands after the bytes `head`.
#[derive(PartialEq, Eq, Structural, Debug, Clone, Copy)]
pub enum HandshakeStep {
    /// Read one more byte.
    Continue,
    /// The response head is complete (it ends with CR LF CR LF).
    Complete,
    /// Over `MAX_HANDSHAKE` bytes without an end of head.
    TooLarge,
}

/// CR LF CR LF, the end of an HTTP head.
pub open spec fn head_end() -> Seq<u8> {
    seq![13u8, 10u8, 13u8, 10u8]
}

/// Whether `s` ends with `suffix`.
pub open spec fn ends_with(s: Seq<u8>, suffix: Seq<u8>) -> bool {
    s.len() >= suffix.len() && s.subrange(s.len() - suffix.len(), s.len() as int) == suffix
}

/// The step after the response bytes `head` were read.
pub open spec fn handshake_step_spec(head: Seq<u8>) -> HandshakeStep {
    if ends_with(head, head_end()) {
        HandshakeStep::Complete
    } else if head.len() > MAX_HANDSHAKE {
        HandshakeStep::TooLarge
    } else {
        HandshakeStep::Continue
    }
}

/// Decides, after each byte of the handshake response, whether to read on.
pub fn handshake_step(head: &[u8]) -> (st: HandshakeStep)
    ensures
        st == handshake_step_spec(head@),
{
    let n = head.len();
    let done = n >= 4 && head[n - 4] == 13 && head[n - 3] == 10 && head[n - 2] == 13 && head[n
        - 1] == 10;
    proof {
        if n >= 4 {
            let tail = head@.subrange(n - 4, n as int);
            assert(done == (tail =~= head_end()));
        }
    }
    if done {
        HandshakeStep::Complete
    } else if n > MAX_HANDSHAKE {
        HandshakeStep::TooLarge
    } else {
        HandshakeStep::Continue
    }
}

/// "HTTP/1.1 101" in ASCII: the status line start of an accepted upgrade.
pub open spec fn switching_protocols() -> Seq<u8> {
    seq![72u8, 84u8, 84u8, 80u8, 47u8, 49u8, 46u8, 49u8, 32u8, 49u8, 48u8, 49u8]
}

/// Whether the response head accepts the upgrade: it starts "HTTP/1.1 101".
pub fn handshake_accepted(head: &[u8]) -> (ok: bool)
    ensures
        ok == (head@.len() >= 12 && head@.take(12) == switching_protocols()),
{
    let expected: [u8; 12] = [72, 84, 84, 80, 47, 49, 46, 49, 32, 49, 48, 49];
    assert(expected@ =~= switching_protocols());
    if head.len() < 12 {
        return false;
    }
    let mut i: usize = 0;
    while i < 12
        invariant
            i <= 12,
            head@.len() >= 12,
            expected@ == switching_protocols(),
            head@.take(i as int) =~= switching_protocols().take(i as int),
        decreases 12 - i,
    {
        if head[i] != expected[i] {
            assert(head@.take(12)[i as int] != switching_protocols()[i as int]);
            return false;
        }
        i = i + 1;
    }
    assert(head@.take(12) =~= switching_protocols());
    true
}


/// The first line of `text` as `str::lines` gives it; empty when there is none.
pub open spec fn first_line_spec(text: Seq<char>) -> Seq<char> {
    if lines_spec(text).len() > 0 {
        lines_spec(text)[0]
    } else {
        Seq::empty()
    }
}

/// The error reported when the server turns the handshake down, naming the
/// status line of its response head (read as text).
pub fn handshake_rejection(head: &str) -> (msg: String)
    ensures
        msg@ == "handshake rejected: "@ + first_line_spec(head@),
{
    let ls = lines(head);
    let mut msg = String::from_str("handshake rejected: ");
    if ls.len() > 0 {
        proof {
            assert(ls@.map_values(|l: String| l@)[0] == ls@[0]@);
        }
        msg.append(ls[0].as_str());
    } else {
        proof {
            assert(ls@.map_values(|l: String| l@).len() == 0);
        }
    }
    msg
}

/// The error type of the system random source (`getrandom::Error`).
#[verifier::external_type_specification]
#[verifier::external_body]
pub struct ExRandomError(getrandom::Error);

/// `n` bytes from the system's random source (`getrandom::fill` on a buffer of
/// `n` zero bytes). Stated here: on success the bytes are `n` in number.
/// Which bytes come back is chance and is not stated.
#[verifier::external_body]
fn random_bytes(n: usize) -> (r: Result<Vec<u8>, getrandom::Error>)
    ensures
        r matches Ok(v) ==> v@.len() == n,
{
    let mut buf = vec![0u8; n];
    match getrandom::fill(&mut buf) {
        Ok(()) => Ok(buf),
        Err(e) => Err(e),
    }
}

/// The opening handshake request for `target`, with a fresh key: 16 bytes
/// drawn from the system random source, in base64. Nothing when the random
/// source fails.
pub fn open_request(target: &str) -> (r: Option<String>)
    ensures
        r matches Some(req) ==> exists|nonce: Seq<u8>|
            nonce.len() == 16 && req@ == #[trigger] handshake_request_spec(target@, nonce),
{
    match random_bytes(16) {
        Ok(nonce) => {
            let req = handshake_request(target, nonce.as_slice());
            assert(req@ == handshake_request_spec(target@, nonce@));
            Some(req)
        },
        Err(_) => None,
    }
}

/// The Pong reply to a Ping with payload `payload`, masked with a fresh
/// 4-byte key from the system random source. Nothing when the random source
/// fails.
pub fn pong_reply(payload: &[u8]) -> (r: Option<Vec<u8>>)
    ensures
        r matches Some(f) ==> exists|key: Seq<u8>|
            key.len() == 4 && f@ == #[trigger] pong_bytes(payload@, key),
{
    match random_bytes(4) {
        Ok(k) => {
            let key: [u8; 4] = [k[0], k[1], k[2], k[3]];
            assert(key@ =~= k@);
            let f = pong_frame(payload, key);
            assert(f@ == pong_bytes(payload@, key@));
            Some(f)
        },
        Err(_) => None,
    }
}

} // verus!

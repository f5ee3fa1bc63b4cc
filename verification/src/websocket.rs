//! Client-side websocket framing used by the manifold broker clients: text
//! frames masked with a per-message key, and the decoding steps for frames
//! read back from the broker.
use vstd::prelude::*;
use crate::text::{dec_nat, push_u64};

verus! {

/// The largest payload, in bytes, that one frame read keeps.
pub const MAX_FRAME_PAYLOAD: usize = 1048576;

/// Byte `k` (little-endian order) of a 64-bit value.
pub open spec fn le_byte(x: u64, k: int) -> u8 {
    ((x >> ((8 * k) as u64)) & 0xff) as u8
}

/// The eight big-endian bytes of a 64-bit value.
pub open spec fn be_bytes64(x: u64) -> Seq<u8> {
    seq![
        le_byte(x, 7),
        le_byte(x, 6),
        le_byte(x, 5),
        le_byte(x, 4),
        le_byte(x, 3),
        le_byte(x, 2),
        le_byte(x, 1),
        le_byte(x, 0),
    ]
}

/// The header of a final, masked text frame carrying `len` payload bytes:
/// opcode byte, mask bit with the 7-bit length or its 16/64-bit extension.
pub open spec fn text_frame_header(len: nat) -> Seq<u8> {
    if len <= 125 {
        seq![0x81u8, (0x80 + len) as u8]
    } else if len <= 0xffff {
        seq![0x81u8, 0xfeu8, (len / 256) as u8, (len % 256) as u8]
    } else {
        seq![0x81u8, 0xffu8] + be_bytes64(len as u64)
    }
}

/// `payload` with byte `i` xor-ed with `mask[i % 4]`.
pub open spec fn masked_bytes(payload: Seq<u8>, mask: Seq<u8>) -> Seq<u8> {
    Seq::new(payload.len(), |i: int| payload[i] ^ mask[i % 4])
}

/// The complete client text frame for `payload` under `mask`.
pub open spec fn client_text_frame_spec(payload: Seq<u8>, mask: Seq<u8>) -> Seq<u8> {
    text_frame_header(payload.len()) + mask + masked_bytes(payload, mask)
}

/// Builds a final, masked websocket text frame.
pub fn client_text_frame(payload: &[u8], mask: [u8; 4]) -> (frame: Vec<u8>)
    ensures
        frame@ == client_text_frame_spec(payload@, mask@),
{
    let len = payload.len();
    let mut frame: Vec<u8> = Vec::new();
    frame.push(0x81u8);
    if len <= 125 {
        let b: u8 = len as u8;
        frame.push(0x80u8 | b);
        assert(0x80u8 | b == (0x80 + b) as u8) by (bit_vector)
            requires
                b <= 125,
        ;
    } else if len <= 0xffff {
        frame.push(0x80u8 | 126u8);
        assert(0x80u8 | 126u8 == 0xfeu8) by (bit_vector);
        frame.push((len / 256) as u8);
        frame.push((len % 256) as u8);
    } else {
        frame.push(0x80u8 | 127u8);
        assert(0x80u8 | 127u8 == 0xffu8) by (bit_vector);
        let l: u64 = len as u64;
        frame.push(((l >> 56u64) & 0xff) as u8);
        frame.push(((l >> 48u64) & 0xff) as u8);
        frame.push(((l >> 40u64) & 0xff) as u8);
        frame.push(((l >> 32u64) & 0xff) as u8);
        frame.push(((l >> 24u64) & 0xff) as u8);
        frame.push(((l >> 16u64) & 0xff) as u8);
        frame.push(((l >> 8u64) & 0xff) as u8);
        frame.push((l & 0xff) as u8);
        assert(l >> 0u64 == l) by (bit_vector);
    }
    assert(frame@ == text_frame_header(len as nat));
    frame.push(mask[0]);
    frame.push(mask[1]);
    frame.push(mask[2]);
    frame.push(mask[3]);
    let ghost head = frame@;
    assert(head == text_frame_header(len as nat) + mask@);
    let mut i: usize = 0;
    while i < len
        invariant
            i <= len,
            len == payload@.len(),
            frame@ == head + masked_bytes(payload@.take(i as int), mask@),
        decreases len - i,
    {
        frame.push(payload[i] ^ mask[i % 4]);
        i = i + 1;
        assert(masked_bytes(payload@.take(i as int), mask@) == masked_bytes(
            payload@.take(i - 1),
            mask@,
        ).push(payload@[i - 1] ^ mask@[(i - 1) % 4]));
    }
    assert(payload@.take(len as int) == payload@);
    frame
}

/// Whether the second header byte sets the mask bit.
pub open spec fn header_masked(b1: u8) -> bool {
    b1 & 0x80 != 0
}

/// The 7-bit length code of the second header byte.
pub open spec fn header_len_code(b1: u8) -> u8 {
    b1 & 0x7f
}

/// How many extended length bytes follow a header whose second byte is `b1`.
pub open spec fn extended_len_size_spec(b1: u8) -> nat {
    if header_len_code(b1) == 126 {
        2
    } else if header_len_code(b1) == 127 {
        8
    } else {
        0
    }
}

/// The big-endian value of a byte sequence.
pub open spec fn be_value(bytes: Seq<u8>) -> nat
    decreases bytes.len(),
{
    if bytes.len() == 0 {
        0
    } else {
        be_value(bytes.drop_last()) * 256 + bytes.last() as nat
    }
}

/// The payload length that a read keeps, from the second header byte and its
/// extended length bytes, capped at [`MAX_FRAME_PAYLOAD`].
pub open spec fn frame_payload_len_spec(b1: u8, extended: Seq<u8>) -> nat {
    let declared = if header_len_code(b1) == 126 || header_len_code(b1) == 127 {
        be_value(extended)
    } else {
        header_len_code(b1) as nat
    };
    if declared <= MAX_FRAME_PAYLOAD {
        declared
    } else {
        MAX_FRAME_PAYLOAD as nat
    }
}

/// Whether a frame header announces a masked payload.
pub fn frame_is_masked(b1: u8) -> (r: bool)
    ensures
        r == header_masked(b1),
{
    b1 & 0x80 != 0
}

/// The number of extended length bytes to read after the two header bytes.
pub fn frame_extended_len_size(b1: u8) -> (n: usize)
    ensures
        n == extended_len_size_spec(b1),
{
    let code = b1 & 0x7f;
    if code == 126 {
        2
    } else if code == 127 {
        8
    } else {
        0
    }
}

/// The payload length to read, given the second header byte and the extended
/// length bytes that [`frame_extended_len_size`] asked for.
pub fn frame_payload_len(b1: u8, extended: &[u8]) -> (len: usize)
    requires
        extended@.len() == extended_len_size_spec(b1),
    ensures
        len == frame_payload_len_spec(b1, extended@),
{
    let code = b1 & 0x7f;
    let mut declared: u64 = code as u64;
    if code == 126 || code == 127 {
        declared = 0;
        let mut i: usize = 0;
        while i < extended.len()
            invariant
                i <= extended@.len() <= 8,
                code == header_len_code(b1),
                code == 126 || code == 127,
                extended@.len() == extended_len_size_spec(b1),
                declared == be_value(extended@.take(i as int)),
                declared <= (MAX_FRAME_PAYLOAD as u64) * 256 + 255,
            decreases extended@.len() - i,
        {
            if declared > (MAX_FRAME_PAYLOAD as u64) {
                // once above the cap the exact value no longer matters
                proof {
                    lemma_be_value_prefix_grows(extended@, i as nat);
                }
                return MAX_FRAME_PAYLOAD;
            }
            assert(extended@.take(i as int + 1).drop_last() == extended@.take(i as int));
            declared = declared * 256 + extended[i] as u64;
            i = i + 1;
        }
        assert(extended@.take(extended@.len() as int) == extended@);
    }
    if declared <= (MAX_FRAME_PAYLOAD as u64) {
        declared as usize
    } else {
        MAX_FRAME_PAYLOAD
    }
}

proof fn lemma_be_value_prefix_grows(bytes: Seq<u8>, i: nat)
    requires
        i <= bytes.len(),
    ensures
        be_value(bytes) >= be_value(bytes.take(i as int)),
    decreases bytes.len() - i,
{
    if i < bytes.len() {
        lemma_be_value_prefix_grows(bytes, i + 1);
        assert(bytes.take(i as int + 1).drop_last() == bytes.take(i as int));
    } else {
        assert(bytes.take(i as int) == bytes);
    }
}

/// Removes the mask from a payload read from a masked frame.
pub fn unmask_payload(payload: &mut Vec<u8>, mask: [u8; 4])
    ensures
        final(payload)@ == masked_bytes(old(payload)@, mask@),
{
    let n = payload.len();
    let ghost original = payload@;
    let mut i: usize = 0;
    while i < n
        invariant
            i <= n,
            n == original.len(),
            payload@.len() == n,
            forall|j: int| 0 <= j < i ==> #[trigger] payload@[j] == original[j] ^ mask@[j % 4],
            forall|j: int| i <= j < n ==> #[trigger] payload@[j] == original[j],
        decreases n - i,
    {
        let b = payload[i] ^ mask[i % 4];
        payload.set(i, b);
        i = i + 1;
    }
    assert(payload@ == masked_bytes(original, mask@));
}

/// What a frame read gives back from the bytes `frame` arriving on the
/// stream: header, extended length, optional mask, then the payload capped at
/// [`MAX_FRAME_PAYLOAD`] bytes and unmasked; `None` when the bytes run out.
pub open spec fn decoded_frame_payload(frame: Seq<u8>) -> Option<Seq<u8>> {
    if frame.len() < 2 {
        None
    } else {
        let b1 = frame[1];
        let ext = extended_len_size_spec(b1) as int;
        if frame.len() < 2 + ext {
            None
        } else {
            let len = frame_payload_len_spec(b1, frame.subrange(2, 2 + ext)) as int;
            let mask_start = 2 + ext;
            let payload_start = if header_masked(b1) {
                mask_start + 4
            } else {
                mask_start
            };
            if frame.len() < payload_start + len {
                None
            } else {
                let raw = frame.subrange(payload_start, payload_start + len);
                if header_masked(b1) {
                    Some(masked_bytes(raw, frame.subrange(mask_start, mask_start + 4)))
                } else {
                    Some(raw)
                }
            }
        }
    }
}

/// Masking twice with the same key gives back the original bytes.
pub proof fn lemma_mask_involution(payload: Seq<u8>, mask: Seq<u8>)
    requires
        mask.len() == 4,
    ensures
        masked_bytes(masked_bytes(payload, mask), mask) == payload,
{
    assert forall|i: int| 0 <= i < payload.len() implies #[trigger] masked_bytes(
        masked_bytes(payload, mask),
        mask,
    )[i] == payload[i] by {
        let b = payload[i];
        let m = mask[i % 4];
        assert((b ^ m) ^ m == b) by (bit_vector);
    }
    assert(masked_bytes(masked_bytes(payload, mask), mask) =~= payload);
}

/// Reading back a client text frame yields the payload it was built from,
/// for every payload that fits in one frame read and every masking key.
pub proof fn lemma_client_frame_roundtrip(payload: Seq<u8>, mask: Seq<u8>)
    requires
        mask.len() == 4,
        payload.len() <= MAX_FRAME_PAYLOAD,
    ensures
        decoded_frame_payload(client_text_frame_spec(payload, mask)) == Some(payload),
{
    let len = payload.len() as int;
    let frame = client_text_frame_spec(payload, mask);
    let header = text_frame_header(payload.len());
    let b1 = frame[1];
    assert(b1 == header[1]);
    if len <= 125 {
        let l = len as u8;
        assert(((0x80 + l) as u8) & 0x80 != 0 && ((0x80 + l) as u8) & 0x7f == l) by (bit_vector)
            requires
                l <= 125,
        ;
        assert(extended_len_size_spec(b1) == 0);
        assert(frame_payload_len_spec(b1, frame.subrange(2, 2)) == len);
    } else if len <= 0xffff {
        assert(0xfeu8 & 0x80 != 0 && 0xfeu8 & 0x7f == 126) by (bit_vector);
        let ext = frame.subrange(2, 4);
        assert(ext =~= seq![(len / 256) as u8, (len % 256) as u8]);
        assert(ext.drop_last() =~= seq![(len / 256) as u8]);
        assert(ext.drop_last().drop_last() =~= Seq::<u8>::empty());
        assert(be_value(ext.drop_last().drop_last()) == 0);
        assert(be_value(ext.drop_last()) == (len / 256) as u8 as nat);
        assert(be_value(ext) == ((len / 256) as u8 as nat) * 256 + ((len % 256) as u8 as nat));
        assert(be_value(ext) == len);
        assert(frame_payload_len_spec(b1, ext) == len);
    } else {
        assert(0xffu8 & 0x80 != 0 && 0xffu8 & 0x7f == 127) by (bit_vector);
        let x = len as u64;
        let ext = frame.subrange(2, 10);
        assert(ext =~= be_bytes64(x));
        assert(x <= 0x100000);
        assert(le_byte(x, 7) == 0 && le_byte(x, 6) == 0 && le_byte(x, 5) == 0 && le_byte(x, 4)
            == 0 && le_byte(x, 3) == 0) by (bit_vector)
            requires
                x <= 0x100000,
        ;
        assert(x == (le_byte(x, 2) as u64) * 65536 + (le_byte(x, 1) as u64) * 256 + (le_byte(
            x,
            0,
        ) as u64)) by (bit_vector)
            requires
                x <= 0x100000,
        ;
        lemma_be_value_be_bytes64(x);
        assert(frame_payload_len_spec(b1, ext) == len);
    }
    let ext = extended_len_size_spec(b1) as int;
    assert(header.len() == 2 + ext);
    assert(frame.subrange(2, 2 + ext) =~= header.subrange(2, 2 + ext));
    assert(frame.subrange(2 + ext, 2 + ext + 4) =~= mask);
    assert(frame.subrange(2 + ext + 4, 2 + ext + 4 + len) =~= masked_bytes(payload, mask));
    lemma_mask_involution(payload, mask);
}

proof fn lemma_be_value_be_bytes64(x: u64)
    requires
        le_byte(x, 7) == 0,
        le_byte(x, 6) == 0,
        le_byte(x, 5) == 0,
        le_byte(x, 4) == 0,
        le_byte(x, 3) == 0,
    ensures
        be_value(be_bytes64(x)) == (le_byte(x, 2) as nat) * 65536 + (le_byte(x, 1) as nat) * 256
            + (le_byte(x, 0) as nat),
{
    let s = be_bytes64(x);
    assert(s.take(0).len() == 0);
    assert(be_value(s.take(0)) == 0);
    assert(s.take(1).drop_last() =~= s.take(0));
    assert(be_value(s.take(1)) == 0);
    assert(s.take(2).drop_last() =~= s.take(1));
    assert(be_value(s.take(2)) == 0);
    assert(s.take(3).drop_last() =~= s.take(2));
    assert(be_value(s.take(3)) == 0);
    assert(s.take(4).drop_last() =~= s.take(3));
    assert(be_value(s.take(4)) == 0);
    assert(s.take(5).drop_last() =~= s.take(4));
    assert(be_value(s.take(5)) == 0);
    assert(s.take(6).drop_last() =~= s.take(5));
    assert(be_value(s.take(6)) == s[5] as nat);
    assert(s.take(7).drop_last() =~= s.take(6));
    assert(be_value(s.take(7)) == (s[5] as nat) * 256 + s[6] as nat);
    assert(s.drop_last() =~= s.take(7));
    assert(be_value(s) == ((s[5] as nat) * 256 + s[6] as nat) * 256 + s[7] as nat);
}


/// The upgrade request a broker client sends for the events endpoint.
pub open spec fn handshake_request_spec(host: Seq<char>, port: u16, key: Seq<char>) -> Seq<char> {
    "GET /manifold/v1/events HTTP/1.1\r\nHost: "@ + host + ":"@ + dec_nat(port as nat)
        + "\r\nUpgrade: websocket\r\nConnection: Upgrade\r\nSec-WebSocket-Key: "@ + key
        + "\r\nSec-WebSocket-Version: 13\r\n\r\n"@
}

/// The upgrade request a broker client sends for the events endpoint.
pub fn handshake_request(host: &str, port: u16, key: &str) -> (request: String)
    ensures
        request@ == handshake_request_spec(host@, port, key@),
{
    let mut out = String::from_str("GET /manifold/v1/events HTTP/1.1\r\nHost: ");
    out.append(host);
    out.append(":");
    push_u64(&mut out, port as u64);
    out.append("\r\nUpgrade: websocket\r\nConnection: Upgrade\r\nSec-WebSocket-Key: ");
    out.append(key);
    out.append("\r\nSec-WebSocket-Version: 13\r\n\r\n");
    proof {
        assert(out@ =~= handshake_request_spec(host@, port, key@));
    }
    out
}

/// The status line prefix of an accepted upgrade: `HTTP/1.1 101`.
pub open spec fn switching_protocols() -> Seq<u8> {
    seq![0x48u8, 0x54u8, 0x54u8, 0x50u8, 0x2fu8, 0x31u8, 0x2eu8, 0x31u8, 0x20u8, 0x31u8, 0x30u8, 0x31u8]
}

/// Whether the broker accepted the upgrade: the response starts with
/// `HTTP/1.1 101`.
pub fn handshake_accepted(response: &[u8]) -> (accepted: bool)
    ensures
        accepted == (response@.len() >= 12 && response@.take(12) == switching_protocols()),
{
    let expected: [u8; 12] = [0x48, 0x54, 0x54, 0x50, 0x2f, 0x31, 0x2e, 0x31, 0x20, 0x31, 0x30, 0x31];
    if response.len() < 12 {
        return false;
    }
    let mut i: usize = 0;
    while i < 12
        invariant
            i <= 12,
            response@.len() >= 12,
            expected@ == switching_protocols(),
            forall|j: int| 0 <= j < i ==> response@[j] == expected@[j],
        decreases 12 - i,
    {
        if response[i] != expected[i] {
            assert(response@.take(12)[i as int] != switching_protocols()[i as int]);
            return false;
        }
        i = i + 1;
    }
    assert(response@.take(12) =~= switching_protocols());
    true
}

/// The longest upgrade response a client reads.
pub const MAX_HANDSHAKE_RESPONSE: usize = 4096;

/// Whether the client reads another response byte: the response has not yet
/// ended with a blank line and is still below the size limit.
pub fn handshake_read_more(response: &[u8]) -> (more: bool)
    ensures
        more == (response@.len() < MAX_HANDSHAKE_RESPONSE && !(response@.len() >= 4
            && response@.skip(response@.len() - 4) == seq![13u8, 10u8, 13u8, 10u8])),
{
    let n = response.len();
    if n >= MAX_HANDSHAKE_RESPONSE {
        return false;
    }
    if n >= 4 && response[n - 4] == 13 && response[n - 3] == 10 && response[n - 2] == 13
        && response[n - 1] == 10 {
        assert(response@.skip(n - 4) =~= seq![13u8, 10u8, 13u8, 10u8]);
        return false;
    }
    if n >= 4 {
        let ghost tail = response@.skip(n - 4);
        assert(tail[0] == response@[n - 4]);
        assert(tail[1] == response@[n - 3]);
        assert(tail[2] == response@[n - 2]);
        assert(tail[3] == response@[n - 1]);
    }
    true
}

/// The read and write timeout of a broker socket: the configured connect
/// timeout kept between 50 ms and 5 s.
pub fn socket_timeout_ms(connect_timeout_ms: u64) -> (timeout: u64)
    ensures
        timeout == if connect_timeout_ms < 50 {
            50
        } else if connect_timeout_ms > 5000 {
            5000
        } else {
            connect_timeout_ms
        },
{
    if connect_timeout_ms < 50 {
        50
    } else if connect_timeout_ms > 5000 {
        5000
    } else {
        connect_timeout_ms
    }
}

} // verus!

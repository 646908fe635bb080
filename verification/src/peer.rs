//! The UDP echo peer: what it answers to a datagram.
//!
//! A datagram that is UTF-8 text and reads `ping` once the white space
//! around it is trimmed, in any mix of upper and lower case, is answered with
//! `pong`. Every other datagram is sent back as it came.

use vstd::prelude::*;

verus! {

/// The answer to a ping: the four ASCII bytes of `pong`.
pub open spec fn pong() -> Seq<u8> {
    seq![112u8, 111u8, 110u8, 103u8]
}

/// The number of bytes of the white-space character that `bytes` begins
/// with in UTF-8, or zero if it begins with none. White space is what
/// Unicode calls so: U+0009 to U+000D, U+0020, U+0085, U+00A0, U+1680,
/// U+2000 to U+200A, U+2028, U+2029, U+202F, U+205F and U+3000.
pub open spec fn white_space_width(bytes: Seq<u8>) -> nat {
    if bytes.len() >= 1 && (0x09 <= bytes[0] <= 0x0D || bytes[0] == 0x20) {
        1
    } else if bytes.len() >= 2 && bytes[0] == 0xC2 && (bytes[1] == 0x85 || bytes[1] == 0xA0) {
        2
    } else if bytes.len() >= 3 && bytes[0] == 0xE1 && bytes[1] == 0x9A && bytes[2] == 0x80 {
        3
    } else if bytes.len() >= 3 && bytes[0] == 0xE2 && bytes[1] == 0x80 && (0x80 <= bytes[2]
        <= 0x8A || bytes[2] == 0xA8 || bytes[2] == 0xA9 || bytes[2] == 0xAF) {
        3
    } else if bytes.len() >= 3 && bytes[0] == 0xE2 && bytes[1] == 0x81 && bytes[2] == 0x9F {
        3
    } else if bytes.len() >= 3 && bytes[0] == 0xE3 && bytes[1] == 0x80 && bytes[2] == 0x80 {
        3
    } else {
        0
    }
}

/// `bytes` without the white space it begins with.
pub open spec fn trimmed_start(bytes: Seq<u8>) -> Seq<u8>
    decreases bytes.len(),
{
    let width = white_space_width(bytes);
    if width == 0 {
        bytes
    } else {
        trimmed_start(bytes.skip(width as int))
    }
}

/// Whether `bytes` is white space and nothing else.
pub open spec fn is_blank(bytes: Seq<u8>) -> bool {
    trimmed_start(bytes).len() == 0
}

/// Whether `byte` is the ASCII letter `lower`, in either case.
pub open spec fn is_letter(byte: u8, lower: u8) -> bool {
    byte == lower || byte + 32 == lower
}

/// Whether `bytes` begins with the word `ping`, in any mix of cases.
pub open spec fn begins_with_ping(bytes: Seq<u8>) -> bool {
    &&& bytes.len() >= 4
    &&& is_letter(bytes[0], 112)
    &&& is_letter(bytes[1], 105)
    &&& is_letter(bytes[2], 110)
    &&& is_letter(bytes[3], 103)
}

/// Whether a datagram is a ping: white space, the word, white space.
pub open spec fn is_ping(payload: Seq<u8>) -> bool {
    let rest = trimmed_start(payload);
    begins_with_ping(rest) && is_blank(rest.skip(4))
}

/// What the peer answers to `payload`.
pub open spec fn reply_to(payload: Seq<u8>) -> Seq<u8> {
    if is_ping(payload) {
        pong()
    } else {
        payload
    }
}

/// The width of the white-space character at `from`.
fn white_space_at(payload: &[u8], from: usize) -> (width: usize)
    requires
        from <= payload.len(),
    ensures
        width == white_space_width(payload@.skip(from as int)),
        from + width <= payload.len(),
{
    let left = payload.len() - from;
    let ghost rest = payload@.skip(from as int);
    if left == 0 {
        return 0;
    }
    let first = payload[from];
    assert(rest[0] == first);
    if (0x09 <= first && first <= 0x0D) || first == 0x20 {
        return 1;
    }
    if left < 2 {
        return 0;
    }
    let second = payload[from + 1];
    assert(rest[1] == second);
    if first == 0xC2 && (second == 0x85 || second == 0xA0) {
        return 2;
    }
    if left < 3 {
        return 0;
    }
    let third = payload[from + 2];
    assert(rest[2] == third);
    if first == 0xE1 && second == 0x9A && third == 0x80 {
        3
    } else if first == 0xE2 && second == 0x80 && ((0x80 <= third && third <= 0x8A) || third
        == 0xA8 || third == 0xA9 || third == 0xAF) {
        3
    } else if first == 0xE2 && second == 0x81 && third == 0x9F {
        3
    } else if first == 0xE3 && second == 0x80 && third == 0x80 {
        3
    } else {
        0
    }
}

/// The position after the white space that begins at `from`.
fn skip_white_space(payload: &[u8], from: usize) -> (to: usize)
    requires
        from <= payload.len(),
    ensures
        from <= to <= payload.len(),
        payload@.skip(to as int) == trimmed_start(payload@.skip(from as int)),
{
    let mut to = from;
    loop
        invariant
            from <= to <= payload.len(),
            trimmed_start(payload@.skip(to as int)) == trimmed_start(payload@.skip(from as int)),
        ensures
            from <= to <= payload.len(),
            payload@.skip(to as int) == trimmed_start(payload@.skip(from as int)),
        decreases payload.len() - to,
    {
        let width = white_space_at(payload, to);
        if width == 0 {
            break;
        }
        assert(payload@.skip(to as int).skip(width as int) =~= payload@.skip(to + width));
        to += width;
    }
    to
}

/// Whether `byte` is the letter `lower` in either case.
fn letter(byte: u8, lower: u8) -> (same: bool)
    requires
        97 <= lower <= 122,
    ensures
        same == is_letter(byte, lower),
{
    byte == lower || (byte <= 223 && byte + 32 == lower)
}

/// Decides what to answer to a datagram.
pub fn udp_peer_reply(payload: &[u8]) -> (reply: Vec<u8>)
    ensures
        reply@ == reply_to(payload@),
{
    let word = skip_white_space(payload, 0);
    assert(payload@.skip(0) =~= payload@);
    let ghost rest = payload@.skip(word as int);
    if payload.len() - word >= 4 {
        assert(rest[0] == payload[word as int]);
        assert(rest[1] == payload[word + 1]);
        assert(rest[2] == payload[word + 2]);
        assert(rest[3] == payload[word + 3]);
        if letter(payload[word], 112) && letter(payload[word + 1], 105) && letter(
            payload[word + 2],
            110,
        ) && letter(payload[word + 3], 103) {
            let end = skip_white_space(payload, word + 4);
            assert(rest.skip(4) =~= payload@.skip(word + 4));
            if end == payload.len() {
                let reply: Vec<u8> = vec![112u8, 111u8, 110u8, 103u8];
                assert(reply@ =~= pong());
                return reply;
            }
        }
    }
    vstd::slice::slice_to_vec(payload)
}

} // verus!

//! The ICMP Echo codec: the Internet checksum, Echo Request frames, and the
//! test that matches an Echo Reply to the request it answers.

use vstd::prelude::*;

verus! {

/// Size in bytes of the buffer an Echo Reply is received into.
pub const ICMP_SIZE: usize = 64;

/// The weight of the byte at `index` within its big-endian 16-bit word.
pub open spec fn byte_weight(index: int) -> nat {
    if index % 2 == 0 {
        256
    } else {
        1
    }
}

/// The plain sum of the big-endian 16-bit words of `data`. A trailing odd
/// byte counts as the high byte of a word whose low byte is zero.
pub open spec fn word_sum(data: Seq<u8>) -> nat
    decreases data.len(),
{
    if data.len() == 0 {
        0
    } else {
        word_sum(data.drop_last()) + data.last() as nat * byte_weight(data.len() - 1)
    }
}

/// Reduces a sum of 16-bit words to 16 bits by adding the carries back in
/// (end-around carry): zero stays zero, any other total becomes its
/// representative in `1..=0xFFFF` modulo `0xFFFF`.
pub open spec fn end_around_fold(total: nat) -> nat {
    if total == 0 {
        0
    } else {
        ((total - 1) % 0xFFFF + 1) as nat
    }
}

/// The Internet checksum of `data`: the 16-bit one's complement of the
/// one's-complement sum of its big-endian 16-bit words.
pub open spec fn internet_checksum(data: Seq<u8>) -> u16 {
    (0xFFFF - end_around_fold(word_sum(data))) as u16
}

/// The high byte of a 16-bit value.
pub open spec fn high_byte(value: u16) -> u8 {
    (value / 256) as u8
}

/// The low byte of a 16-bit value.
pub open spec fn low_byte(value: u16) -> u8 {
    (value % 256) as u8
}

/// An Echo Request frame that carries `checksum` in its checksum field:
/// type 8, code 0, checksum, identifier, sequence (each 16-bit field in
/// network order), then the payload.
pub open spec fn echo_frame(identifier: u16, sequence: u16, checksum: u16, payload: Seq<u8>) -> Seq<
    u8,
> {
    seq![
        8u8,
        0u8,
        high_byte(checksum),
        low_byte(checksum),
        high_byte(identifier),
        low_byte(identifier),
        high_byte(sequence),
        low_byte(sequence),
    ] + payload
}

/// The Echo Request for `identifier` and `sequence`: the frame whose checksum
/// field holds the checksum of the same frame with that field zeroed.
pub open spec fn echo_request(identifier: u16, sequence: u16, payload: Seq<u8>) -> Seq<u8> {
    echo_frame(
        identifier,
        sequence,
        internet_checksum(echo_frame(identifier, sequence, 0, payload)),
        payload,
    )
}

/// The length of the IPv4 header that starts `buffer`: the low four bits of
/// its first byte, counted in 32-bit words.
pub open spec fn ip_header_len(buffer: Seq<u8>) -> nat {
    ((buffer[0] % 16) * 4) as nat
}

/// Whether the first `recv_size` bytes of `buffer`, read as an IPv4 header
/// followed by an ICMP message, hold the Echo Reply (type 0, code 0) to the
/// request with this identifier and sequence. The eight bytes of the ICMP
/// header must lie within both the received size and the buffer.
pub open spec fn is_echo_reply_to(
    buffer: Seq<u8>,
    recv_size: usize,
    identifier: u16,
    sequence: u16,
) -> bool {
    let start = ip_header_len(buffer) as int;
    &&& buffer.len() > 0
    &&& recv_size > start + 7
    &&& buffer.len() > start + 7
    &&& buffer[start] == 0
    &&& buffer[start + 1] == 0
    &&& buffer[start + 4] * 256 + buffer[start + 5] == identifier
    &&& buffer[start + 6] * 256 + buffer[start + 7] == sequence
}

/// Folding commutes with adding one more word.
proof fn lemma_fold_add(total: nat, word: nat)
    requires
        word <= 0xFFFF,
    ensures
        end_around_fold(total + word) == {
            let wide = end_around_fold(total) + word;
            if wide > 0xFFFF {
                (wide - 0xFFFF) as nat
            } else {
                wide
            }
        },
{
}

/// The word sum of a sequence of even length followed by another is the sum
/// of the two word sums.
proof fn lemma_word_sum_concat(front: Seq<u8>, back: Seq<u8>)
    requires
        front.len() % 2 == 0,
    ensures
        word_sum(front + back) == word_sum(front) + word_sum(back),
    decreases back.len(),
{
    if back.len() == 0 {
        assert(front + back =~= front);
    } else {
        lemma_word_sum_concat(front, back.drop_last());
        assert((front + back).drop_last() =~= front + back.drop_last());
    }
}

/// Appending a byte adds it to the word sum with the weight of its position.
proof fn lemma_word_sum_push(data: Seq<u8>, byte: u8)
    ensures
        word_sum(data.push(byte)) == word_sum(data) + byte as nat * byte_weight(data.len() as int),
{
    assert(data.push(byte).drop_last() =~= data);
}

/// The word sum of the eight header bytes of an Echo Request.
proof fn lemma_header_word_sum(identifier: u16, sequence: u16, checksum: u16)
    ensures
        word_sum(echo_frame(identifier, sequence, checksum, Seq::empty())) == 0x0800 + checksum
            + identifier + sequence,
{
    let h0 = Seq::<u8>::empty();
    let h1 = h0.push(8u8);
    let h2 = h1.push(0u8);
    let h3 = h2.push(high_byte(checksum));
    let h4 = h3.push(low_byte(checksum));
    let h5 = h4.push(high_byte(identifier));
    let h6 = h5.push(low_byte(identifier));
    let h7 = h6.push(high_byte(sequence));
    let h8 = h7.push(low_byte(sequence));
    lemma_word_sum_push(h0, 8u8);
    lemma_word_sum_push(h1, 0u8);
    lemma_word_sum_push(h2, high_byte(checksum));
    lemma_word_sum_push(h3, low_byte(checksum));
    lemma_word_sum_push(h4, high_byte(identifier));
    lemma_word_sum_push(h5, low_byte(identifier));
    lemma_word_sum_push(h6, high_byte(sequence));
    lemma_word_sum_push(h7, low_byte(sequence));
    assert(echo_frame(identifier, sequence, checksum, Seq::empty()) =~= h8);
}

/// The word sum of a whole frame: header fields plus payload.
proof fn lemma_frame_word_sum(identifier: u16, sequence: u16, checksum: u16, payload: Seq<u8>)
    ensures
        word_sum(echo_frame(identifier, sequence, checksum, payload)) == 0x0800 + checksum
            + identifier + sequence + word_sum(payload),
{
    let header = echo_frame(identifier, sequence, checksum, Seq::empty());
    assert(echo_frame(identifier, sequence, checksum, payload) =~= header + payload);
    lemma_header_word_sum(identifier, sequence, checksum);
    lemma_word_sum_concat(header, payload);
}

/// A well-formed Echo Request verifies: the one's-complement sum of all its
/// words, checksum field included, is `0xFFFF`, so the checksum recomputed
/// over the whole frame is zero.
pub proof fn lemma_echo_request_verifies(identifier: u16, sequence: u16, payload: Seq<u8>)
    ensures
        end_around_fold(word_sum(echo_request(identifier, sequence, payload))) == 0xFFFF,
        internet_checksum(echo_request(identifier, sequence, payload)) == 0,
{
    let checksum = internet_checksum(echo_frame(identifier, sequence, 0, payload));
    lemma_frame_word_sum(identifier, sequence, 0, payload);
    lemma_frame_word_sum(identifier, sequence, checksum, payload);
}

/// Computes the Internet checksum of `data`.
pub fn calculate_checksum(data: &[u8]) -> (checksum: u16)
    ensures
        checksum == internet_checksum(data@),
{
    let mut sum: u32 = 0;
    let mut i: usize = 0;
    while data.len() - i > 1
        invariant
            i <= data.len(),
            i % 2 == 0,
            sum <= 0xFFFF,
            sum == end_around_fold(word_sum(data@.take(i as int))),
        decreases data.len() - i,
    {
        let word: u32 = data[i] as u32 * 256 + data[i + 1] as u32;
        let wide: u32 = sum + word;
        proof {
            let before = data@.take(i as int);
            let middle = data@.take(i + 1);
            let after = data@.take(i + 2);
            assert(middle =~= before.push(data[i as int]));
            assert(after =~= middle.push(data[i + 1]));
            lemma_word_sum_push(before, data[i as int]);
            lemma_word_sum_push(middle, data[i + 1]);
            assert(byte_weight(before.len() as int) == 256);
            assert(byte_weight(middle.len() as int) == 1);
            assert(word_sum(after) == word_sum(before) + word);
            lemma_fold_add(word_sum(before), word as nat);
        }
        sum = wide % 65536 + wide / 65536;
        i += 2;
    }
    if i < data.len() {
        let word: u32 = data[i] as u32 * 256;
        let wide: u32 = sum + word;
        proof {
            let before = data@.take(i as int);
            assert(data@ =~= before.push(data[i as int]));
            lemma_word_sum_push(before, data[i as int]);
            assert(byte_weight(before.len() as int) == 256);
            assert(word_sum(data@) == word_sum(before) + word);
            lemma_fold_add(word_sum(before), word as nat);
        }
        sum = wide % 65536 + wide / 65536;
    } else {
        assert(data@.take(i as int) =~= data@);
    }
    (0xFFFF - sum) as u16
}

/// The high byte of `value`.
fn high_byte_of(value: u16) -> (byte: u8)
    ensures
        byte == high_byte(value),
{
    (value / 256) as u8
}

/// The low byte of `value`.
fn low_byte_of(value: u16) -> (byte: u8)
    ensures
        byte == low_byte(value),
{
    (value % 256) as u8
}

/// The 16-bit value whose big-endian bytes are `high` and `low`.
fn word_of(high: u8, low: u8) -> (word: u16)
    ensures
        word == high * 256 + low,
{
    high as u16 * 256 + low as u16
}

/// The IPv4 header length announced by the first byte of a datagram.
fn header_len_of(first: u8) -> (len: usize)
    ensures
        len == (first % 16) * 4,
{
    (first % 16) as usize * 4
}

/// Builds the Echo Request for `identifier` and `sequence` with the given
/// payload, checksum filled in.
pub fn build_icmp_echo_request(identifier: u16, sequence: u16, payload: &[u8]) -> (packet: Vec<u8>)
    requires
        payload.len() + 8 <= usize::MAX,
    ensures
        packet@ == echo_request(identifier, sequence, payload@),
{
    let mut packet: Vec<u8> = Vec::with_capacity(8 + payload.len());
    packet.push(8);
    packet.push(0);
    packet.push(0);
    packet.push(0);
    packet.push(high_byte_of(identifier));
    packet.push(low_byte_of(identifier));
    packet.push(high_byte_of(sequence));
    packet.push(low_byte_of(sequence));
    packet.extend_from_slice(payload);
    assert(packet@ =~= echo_frame(identifier, sequence, 0, payload@));
    let checksum = calculate_checksum(packet.as_slice());
    packet[2] = high_byte_of(checksum);
    packet[3] = low_byte_of(checksum);
    assert(packet@ =~= echo_request(identifier, sequence, payload@));
    packet
}

/// Tells whether the first `recv_size` bytes of `buffer` hold the Echo Reply
/// that answers the request with this identifier and sequence.
pub fn is_valid_icmp_echo_response(
    buffer: &[u8],
    recv_size: usize,
    identifier: u16,
    sequence: u16,
) -> (valid: bool)
    ensures
        valid == is_echo_reply_to(buffer@, recv_size, identifier, sequence),
{
    if buffer.len() == 0 {
        return false;
    }
    let start = header_len_of(buffer[0]);
    if recv_size > start + 7 && buffer.len() > start + 7 {
        let kind = buffer[start];
        let code = buffer[start + 1];
        let recv_identifier = word_of(buffer[start + 4], buffer[start + 5]);
        let recv_sequence = word_of(buffer[start + 6], buffer[start + 7]);
        if kind == 0 && code == 0 && recv_identifier == identifier && recv_sequence == sequence {
            return true;
        }
    }
    false
}

} // verus!

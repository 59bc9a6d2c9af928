//! The audio streams on the wire. A client sends each encoded audio chunk as
//! its length (four bytes, high byte first) and the chunk. The server sends
//! each packet of the room as the sender's identifier (eight bytes, high byte
//! first), the length of the data (four bytes) and the data.
use vstd::prelude::*;

use crate::payload::{bytes_as_slice, bytes_len, bytes_view};

verus! {

/// The four bytes of `x`, high byte first.
pub open spec fn u32_be(x: u32) -> Seq<u8> {
    seq![(x >> 24) as u8, (x >> 16) as u8, (x >> 8) as u8, x as u8]
}

/// The number that four bytes stand for, high byte first.
pub open spec fn u32_from_be(b: Seq<u8>) -> u32 {
    ((b[0] as u32) << 24) | ((b[1] as u32) << 16) | ((b[2] as u32) << 8) | (b[3] as u32)
}

/// The eight bytes of `x`, high byte first.
pub open spec fn u64_be(x: u64) -> Seq<u8> {
    seq![
        (x >> 56) as u8,
        (x >> 48) as u8,
        (x >> 40) as u8,
        (x >> 32) as u8,
        (x >> 24) as u8,
        (x >> 16) as u8,
        (x >> 8) as u8,
        x as u8,
    ]
}

/// The number that eight bytes stand for, high byte first.
pub open spec fn u64_from_be(b: Seq<u8>) -> u64 {
    ((b[0] as u64) << 56) | ((b[1] as u64) << 48) | ((b[2] as u64) << 40) | ((b[3] as u64) << 32)
        | ((b[4] as u64) << 24) | ((b[5] as u64) << 16) | ((b[6] as u64) << 8) | (b[7] as u64)
}

/// The length field that a chunk of `n` bytes gets: `n` cut to 32 bits.
pub open spec fn length_field(n: nat) -> u32 {
    (n % 0x1_0000_0000) as u32
}

/// Length of the header of a frame from the server.
pub const DOWNLINK_HEADER_SIZE: usize = 12;

/// Length of the header of a frame from a client.
pub const UPLINK_HEADER_SIZE: usize = 4;

/// A client's frame for an audio chunk: its length, then the chunk.
pub open spec fn uplink_frame(audio: Seq<u8>) -> Seq<u8> {
    u32_be(length_field(audio.len())) + audio
}

/// The server's frame for a packet: sender, data length, then the data.
pub open spec fn downlink_frame(user_id: u64, data: Seq<u8>) -> Seq<u8> {
    u64_be(user_id) + u32_be(length_field(data.len())) + data
}

/// The four bytes of `x`, high byte first.
pub fn encode_u32(x: u32) -> (b: [u8; 4])
    ensures
        b@ == u32_be(x),
{
    let b = [(x >> 24) as u8, (x >> 16) as u8, (x >> 8) as u8, x as u8];
    assert(b@ =~= u32_be(x));
    b
}

/// The number that four bytes stand for, high byte first.
pub fn decode_u32(b: [u8; 4]) -> (x: u32)
    ensures
        x == u32_from_be(b@),
{
    ((b[0] as u32) << 24) | ((b[1] as u32) << 16) | ((b[2] as u32) << 8) | (b[3] as u32)
}

/// The eight bytes of `x`, high byte first.
pub fn encode_u64(x: u64) -> (b: [u8; 8])
    ensures
        b@ == u64_be(x),
{
    let b = [
        (x >> 56) as u8,
        (x >> 48) as u8,
        (x >> 40) as u8,
        (x >> 32) as u8,
        (x >> 24) as u8,
        (x >> 16) as u8,
        (x >> 8) as u8,
        x as u8,
    ];
    assert(b@ =~= u64_be(x));
    b
}

/// The number that eight bytes stand for, high byte first.
pub fn decode_u64(b: [u8; 8]) -> (x: u64)
    ensures
        x == u64_from_be(b@),
{
    ((b[0] as u64) << 56) | ((b[1] as u64) << 48) | ((b[2] as u64) << 40) | ((b[3] as u64) << 32)
        | ((b[4] as u64) << 24) | ((b[5] as u64) << 16) | ((b[6] as u64) << 8) | (b[7] as u64)
}

/// The length field of a chunk of `n` bytes: `n` cut to 32 bits.
fn length_of(n: usize) -> (field: u32)
    ensures
        field == length_field(n as nat),
{
    assert((n as u32) == ((n as int) % 0x1_0000_0000) as u32) by (bit_vector);
    n as u32
}

/// Appends every byte of `tail`, in order, to `out`.
fn push_bytes(out: &mut Vec<u8>, tail: &[u8])
    ensures
        final(out)@ == old(out)@ + tail@,
{
    let ghost start = out@;
    let mut i: usize = 0;
    while i < tail.len()
        invariant
            i <= tail.len(),
            out@ == start + tail@.subrange(0, i as int),
        decreases tail.len() - i,
    {
        out.push(tail[i]);
        assert(tail@.subrange(0, i + 1) == tail@.subrange(0, i as int).push(tail@[i as int]));
        i = i + 1;
    }
    assert(tail@.subrange(0, tail.len() as int) == tail@);
}

/// The frame in which a client sends an encoded audio chunk.
pub fn encode_uplink_frame(audio: &bytes::Bytes) -> (frame: Vec<u8>)
    ensures
        frame@ == uplink_frame(bytes_view(*audio)),
{
    let n = bytes_len(audio);
    let header = encode_u32(length_of(n));
    let mut frame: Vec<u8> = Vec::new();
    push_bytes(&mut frame, &header);
    push_bytes(&mut frame, bytes_as_slice(audio));
    frame
}

/// The frame in which the server relays to a user the data that the user
/// with number `user_id` sent.
pub fn encode_downlink_frame(user_id: u64, data: &bytes::Bytes) -> (frame: Vec<u8>)
    ensures
        frame@ == downlink_frame(user_id, bytes_view(*data)),
{
    let n = bytes_len(data);
    let id = encode_u64(user_id);
    let size = encode_u32(length_of(n));
    let mut frame: Vec<u8> = Vec::new();
    push_bytes(&mut frame, &id);
    push_bytes(&mut frame, &size);
    push_bytes(&mut frame, bytes_as_slice(data));
    frame
}

/// The length that the header of a client's frame announces.
pub fn decode_uplink_header(header: [u8; UPLINK_HEADER_SIZE]) -> (size: u32)
    ensures
        size == u32_from_be(header@),
{
    decode_u32(header)
}

/// The sender and the data length that the header of a server's frame
/// announces.
pub fn decode_downlink_header(header: [u8; DOWNLINK_HEADER_SIZE]) -> (fields: (u64, u32))
    ensures
        fields.0 == u64_from_be(header@.subrange(0, 8)),
        fields.1 == u32_from_be(header@.subrange(8, 12)),
{
    let id = [header[0], header[1], header[2], header[3], header[4], header[5], header[6], header[7]];
    let size = [header[8], header[9], header[10], header[11]];
    assert(id@ =~= header@.subrange(0, 8));
    assert(size@ =~= header@.subrange(8, 12));
    (decode_u64(id), decode_u32(size))
}

/// Decoding the four bytes of a number gives the number back.
pub proof fn lemma_u32_roundtrip(x: u32)
    ensures
        u32_from_be(u32_be(x)) == x,
{
    let b = u32_be(x);
    assert(u32_from_be(b) == ((((x >> 24) as u8) as u32) << 24) | ((((x >> 16) as u8) as u32) << 16)
        | ((((x >> 8) as u8) as u32) << 8) | ((x as u8) as u32));
    assert(((((x >> 24) as u8) as u32) << 24) | ((((x >> 16) as u8) as u32) << 16) | ((((x
        >> 8) as u8) as u32) << 8) | ((x as u8) as u32) == x) by (bit_vector);
}

/// Encoding the number that four bytes stand for gives the bytes back.
pub proof fn lemma_be_u32_roundtrip(b: Seq<u8>)
    requires
        b.len() == 4,
    ensures
        u32_be(u32_from_be(b)) == b,
{
    let (b0, b1, b2, b3) = (b[0], b[1], b[2], b[3]);
    let x = u32_from_be(b);
    assert(x == ((b0 as u32) << 24) | ((b1 as u32) << 16) | ((b2 as u32) << 8) | (b3 as u32));
    assert(({
        let y = ((b0 as u32) << 24) | ((b1 as u32) << 16) | ((b2 as u32) << 8) | (b3 as u32);
        (y >> 24) as u8 == b0 && (y >> 16) as u8 == b1 && (y >> 8) as u8 == b2 && y as u8 == b3
    })) by (bit_vector);
    assert(u32_be(x) =~= b);
}

/// Decoding the eight bytes of a number gives the number back.
pub proof fn lemma_u64_roundtrip(x: u64)
    ensures
        u64_from_be(u64_be(x)) == x,
{
    assert(((((x >> 56) as u8) as u64) << 56) | ((((x >> 48) as u8) as u64) << 48) | ((((x
        >> 40) as u8) as u64) << 40) | ((((x >> 32) as u8) as u64) << 32) | ((((x >> 24) as u8)
        as u64) << 24) | ((((x >> 16) as u8) as u64) << 16) | ((((x >> 8) as u8) as u64) << 8) | ((
    x as u8) as u64) == x) by (bit_vector);
}

/// Encoding the number that eight bytes stand for gives the bytes back.
pub proof fn lemma_be_u64_roundtrip(b: Seq<u8>)
    requires
        b.len() == 8,
    ensures
        u64_be(u64_from_be(b)) == b,
{
    let (b0, b1, b2, b3, b4, b5, b6, b7) = (b[0], b[1], b[2], b[3], b[4], b[5], b[6], b[7]);
    assert(({
        let y = ((b0 as u64) << 56) | ((b1 as u64) << 48) | ((b2 as u64) << 40) | ((b3 as u64)
            << 32) | ((b4 as u64) << 24) | ((b5 as u64) << 16) | ((b6 as u64) << 8) | (b7 as u64);
        (y >> 56) as u8 == b0 && (y >> 48) as u8 == b1 && (y >> 40) as u8 == b2 && (y >> 32) as u8
            == b3 && (y >> 24) as u8 == b4 && (y >> 16) as u8 == b5 && (y >> 8) as u8 == b6 && y as u8
            == b7
    })) by (bit_vector);
    assert(u64_be(u64_from_be(b)) =~= b);
}

/// A client's frame read back: its header announces the chunk's length (cut
/// to 32 bits) and the chunk follows it.
pub proof fn lemma_uplink_frame_readback(audio: Seq<u8>)
    ensures
        uplink_frame(audio).len() == UPLINK_HEADER_SIZE + audio.len(),
        u32_from_be(uplink_frame(audio).subrange(0, 4)) == length_field(audio.len()),
        uplink_frame(audio).subrange(4, uplink_frame(audio).len() as int) == audio,
{
    let f = uplink_frame(audio);
    assert(f.subrange(0, 4) =~= u32_be(length_field(audio.len())));
    assert(f.subrange(4, f.len() as int) =~= audio);
    lemma_u32_roundtrip(length_field(audio.len()));
}

/// The server's frame read back: its header announces the sender and the
/// data's length (cut to 32 bits) and the data follows it.
pub proof fn lemma_downlink_frame_readback(user_id: u64, data: Seq<u8>)
    ensures
        downlink_frame(user_id, data).len() == DOWNLINK_HEADER_SIZE + data.len(),
        u64_from_be(downlink_frame(user_id, data).subrange(0, 8)) == user_id,
        u32_from_be(downlink_frame(user_id, data).subrange(8, 12)) == length_field(data.len()),
        downlink_frame(user_id, data).subrange(12, downlink_frame(user_id, data).len() as int)
            == data,
{
    let f = downlink_frame(user_id, data);
    assert(f.subrange(0, 8) =~= u64_be(user_id));
    assert(f.subrange(8, 12) =~= u32_be(length_field(data.len())));
    assert(f.subrange(12, f.len() as int) =~= data);
    lemma_u64_roundtrip(user_id);
    lemma_u32_roundtrip(length_field(data.len()));
}

/// A chunk shorter than 2^32 bytes keeps its exact length in the header.
pub proof fn lemma_length_field_exact(n: nat)
    requires
        n < 0x1_0000_0000,
    ensures
        length_field(n) == n,
{
}

} // verus!

//! The wire format: a little-endian `u32` length, then the payload.
use byteorder::{ByteOrder, LittleEndian};
use vstd::prelude::*;

verus! {

/// Number of bytes in a frame header.
pub const HEADER_LEN: usize = 4;

/// Number of bytes a reader peeks at to decide whether a frame is waiting.
pub const PEEK_LEN: usize = 5;

/// The number whose little-endian base-256 digits are the first four bytes of `s`.
pub open spec fn le_u32_value(s: Seq<u8>) -> int {
    s[0] + 256 * s[1] + 65536 * s[2] + 16777216 * s[3]
}

/// Reads the little-endian `u32` held in the first four bytes of `buf`.
///
/// Calls `byteorder::LittleEndian::read_u32`, which panics on fewer than
/// four bytes and otherwise decodes `buf[0..4]` with `u32::from_le_bytes`.
/// The contract states exactly that decoding.
#[verifier::external_body]
fn read_le_u32(buf: &[u8]) -> (n: u32)
    requires
        buf@.len() >= 4,
    ensures
        n as int == le_u32_value(buf@),
{
    LittleEndian::read_u32(buf)
}

/// Writes `n` in little-endian order into the first four bytes of `buf`.
///
/// Calls `byteorder::LittleEndian::write_u32`, which panics on fewer than
/// four bytes and otherwise copies `n.to_le_bytes()` over `buf[0..4]`,
/// leaving the rest of `buf` as it was.
#[verifier::external_body]
fn write_le_u32(buf: &mut Vec<u8>, n: u32)
    requires
        old(buf)@.len() >= 4,
    ensures
        final(buf)@.len() == old(buf)@.len(),
        le_u32_value(final(buf)@) == n as int,
        final(buf)@.subrange(4, final(buf)@.len() as int) == old(buf)@.subrange(4, old(buf)@.len() as int),
{
    LittleEndian::write_u32(buf, n)
}


/// The value a payload of `len` bytes announces in its header: the length
/// taken modulo 2^32, as a `u32` cast keeps it.
pub open spec fn announced_len(len: int) -> int {
    len % 0x1_0000_0000
}

/// `frame` is the wire form of `payload`: a header whose little-endian value
/// is the payload's announced length, then the payload itself.
pub open spec fn is_frame_of(frame: Seq<u8>, payload: Seq<u8>) -> bool {
    &&& frame.len() == HEADER_LEN + payload.len()
    &&& le_u32_value(frame) == announced_len(payload.len() as int)
    &&& frame.subrange(HEADER_LEN as int, frame.len() as int) == payload
}

/// Whether the bytes a peek saw show a whole frame, or the start of one,
/// ready to read: a header plus at least one payload byte, or a complete
/// header announcing an empty payload.
pub open spec fn spec_frame_available(peeked: Seq<u8>) -> bool {
    ||| peeked.len() > HEADER_LEN
    ||| peeked.len() == HEADER_LEN && le_u32_value(peeked) == 0
}

/// Builds the frame that carries `payload`: its length as a little-endian
/// `u32` (cut to 32 bits, as a cast does), then the payload bytes.
pub fn encode_frame(payload: &[u8]) -> (frame: Vec<u8>)
    requires
        payload@.len() + HEADER_LEN <= usize::MAX,
    ensures
        is_frame_of(frame@, payload@),
{
    let len: usize = payload.len();
    let announced: u32 = len as u32;
    proof {
        let wide: u64 = len as u64;
        assert(wide == len);
        assert(announced == wide as u32) by (bit_vector)
            requires announced == len as u32, wide == len as u64;
        assert(wide as u32 == wide % 0x1_0000_0000u64) by (bit_vector);
    }
    let mut frame: Vec<u8> = vec![0u8, 0u8, 0u8, 0u8];
    write_le_u32(&mut frame, announced);
    assert(frame@.subrange(4, 4) =~= Seq::<u8>::empty());
    let mut i: usize = 0;
    while i < len
        invariant
            i <= len,
            len == payload@.len(),
            frame@.len() == HEADER_LEN + i,
            le_u32_value(frame@) == announced_len(len as int),
            frame@.subrange(4, frame@.len() as int) == payload@.subrange(0, i as int),
        decreases len - i,
    {
        let ghost before = frame@;
        frame.push(payload[i]);
        assert(frame@.subrange(4, frame@.len() as int) =~= before.subrange(4, before.len() as int).push(payload@[i as int]));
        assert(payload@.subrange(0, i + 1) =~= payload@.subrange(0, i as int).push(payload@[i as int]));
        assert(frame@[0] == before[0] && frame@[1] == before[1] && frame@[2] == before[2] && frame@[3] == before[3]);
        i = i + 1;
    }
    assert(payload@.subrange(0, len as int) =~= payload@);
    frame
}

/// The payload length announced by a frame header.
pub fn frame_length(header: &[u8]) -> (len: u32)
    requires
        header@.len() == HEADER_LEN,
    ensures
        len as int == le_u32_value(header@),
{
    read_le_u32(header)
}

/// Whether the bytes a peek saw show a frame worth reading now.
///
/// Fewer than four bytes are part of a header. Four bytes are a whole
/// header: its frame is ready only when it announces an empty payload;
/// otherwise the frame is read once at least one payload byte has arrived.
pub fn frame_available(peeked: &[u8]) -> (ready: bool)
    ensures
        ready == spec_frame_available(peeked@),
{
    if peeked.len() > HEADER_LEN {
        true
    } else if peeked.len() == HEADER_LEN {
        read_le_u32(peeked) == 0
    } else {
        false
    }
}

/// Which peeks show a frame ready to read: any peek past the four header
/// bytes does; a peek of fewer than four bytes never does; a peek of exactly
/// a header does only when that header announces an empty payload.
pub proof fn lemma_frame_availability(peeked: Seq<u8>)
    ensures
        peeked.len() > HEADER_LEN ==> spec_frame_available(peeked),
        peeked.len() < HEADER_LEN ==> !spec_frame_available(peeked),
        peeked.len() == HEADER_LEN ==> (spec_frame_available(peeked) <==> le_u32_value(peeked) == 0),
{
}

} // verus!

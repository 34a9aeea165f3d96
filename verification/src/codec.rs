//! The fixed-width integer codec.
//!
//! Multi-byte integers are encoded with no variable-length prefix, in an
//! explicitly chosen byte order. Big-endian keeps lexicographic byte order
//! in step with numeric order, which matters for keys; values have no such
//! need and the block-index records use little-endian by convention.

use vstd::prelude::*;

verus! {

/// The byte order used for every multi-byte integer of one encode or
/// decode call. It is chosen per call, never stored with the data.
#[derive(Debug, Clone, Copy, PartialEq, Eq, Structural)]
pub enum ByteOrder {
    BigEndian,
    LittleEndian,
}

/// Why a buffer failed to decode.
#[derive(Debug, Clone, Copy, PartialEq, Eq, Structural)]
pub enum DecodeError {
    /// The buffer is shorter than the record's required fields.
    TruncatedBuffer,
    /// A variable-length record's byte length is not a multiple of its
    /// element size.
    MalformedListLength,
}

/// The four bytes of `x` in the given byte order.
pub open spec fn u32_bytes(order: ByteOrder, x: u32) -> Seq<u8> {
    match order {
        ByteOrder::LittleEndian => seq![
            (x & 0xff) as u8,
            ((x >> 8) & 0xff) as u8,
            ((x >> 16) & 0xff) as u8,
            ((x >> 24) & 0xff) as u8,
        ],
        ByteOrder::BigEndian => seq![
            ((x >> 24) & 0xff) as u8,
            ((x >> 16) & 0xff) as u8,
            ((x >> 8) & 0xff) as u8,
            (x & 0xff) as u8,
        ],
    }
}

/// The `u32` denoted by four bytes in the given byte order.
pub open spec fn u32_of_bytes(order: ByteOrder, s: Seq<u8>) -> u32
    recommends
        s.len() == 4,
{
    match order {
        ByteOrder::LittleEndian => (s[0] as u32) | (s[1] as u32) << 8 | (s[2] as u32) << 16 | (
        s[3] as u32) << 24,
        ByteOrder::BigEndian => (s[3] as u32) | (s[2] as u32) << 8 | (s[1] as u32) << 16 | (
        s[0] as u32) << 24,
    }
}

/// Reading four encoded bytes back, in the order they were written with,
/// yields the integer that was encoded.
pub proof fn lemma_u32_round_trip(order: ByteOrder, x: u32)
    ensures
        u32_bytes(order, x).len() == 4,
        u32_of_bytes(order, u32_bytes(order, x)) == x,
{
    assert((x & 0xff) < 256 && ((x >> 8) & 0xff) < 256 && ((x >> 16) & 0xff) < 256 && ((x
        >> 24) & 0xff) < 256) by (bit_vector);
    assert(x == (x & 0xff) | ((x >> 8) & 0xff) << 8 | ((x >> 16) & 0xff) << 16 | ((x >> 24)
        & 0xff) << 24) by (bit_vector);
}

/// Appends the four bytes of `x`, in the given byte order.
pub fn push_u32(out: &mut Vec<u8>, order: ByteOrder, x: u32)
    ensures
        final(out)@ == old(out)@ + u32_bytes(order, x),
{
    proof {
        assert((x & 0xff) < 256 && ((x >> 8) & 0xff) < 256 && ((x >> 16) & 0xff) < 256 && ((x
            >> 24) & 0xff) < 256) by (bit_vector);
    }
    let b0 = (x & 0xff) as u8;
    let b1 = ((x >> 8) & 0xff) as u8;
    let b2 = ((x >> 16) & 0xff) as u8;
    let b3 = ((x >> 24) & 0xff) as u8;
    match order {
        ByteOrder::LittleEndian => {
            out.push(b0);
            out.push(b1);
            out.push(b2);
            out.push(b3);
        },
        ByteOrder::BigEndian => {
            out.push(b3);
            out.push(b2);
            out.push(b1);
            out.push(b0);
        },
    }
    proof {
        assert(out@ =~= old(out)@ + u32_bytes(order, x));
    }
}

/// Reads the `u32` encoded at `offset`, in the given byte order.
pub fn read_u32(bytes: &[u8], offset: usize, order: ByteOrder) -> (x: u32)
    requires
        offset + 4 <= bytes@.len(),
    ensures
        x == u32_of_bytes(order, bytes@.subrange(offset as int, offset as int + 4)),
{
    let b0 = bytes[offset] as u32;
    let b1 = bytes[offset + 1] as u32;
    let b2 = bytes[offset + 2] as u32;
    let b3 = bytes[offset + 3] as u32;
    match order {
        ByteOrder::LittleEndian => b0 | b1 << 8 | b2 << 16 | b3 << 24,
        ByteOrder::BigEndian => b3 | b2 << 8 | b1 << 16 | b0 << 24,
    }
}

} // verus!

//! Hash normalization and small byte utilities.
//!
//! A block hash is canonically 32 bytes, kept in its stored byte order.
//! Callers that start from hexadecimal text decode it most-significant-byte
//! first and, when the displayed convention is byte-reversed, reverse the
//! bytes explicitly before building keys.

use vstd::prelude::*;
use vstd::string::StrSliceExecFns;
use crate::FullHash;

verus! {

/// Error for a hash buffer that cannot yield a canonical 32-byte hash.
#[derive(Debug, Clone, Copy, PartialEq, Eq, Structural)]
pub enum HashError {
    /// The supplied buffer holds fewer than 32 bytes.
    InvalidHashLength,
}

/// Normalizes caller-supplied bytes to a canonical 32-byte hash: the first
/// 32 bytes are taken verbatim, and a shorter buffer is rejected.
pub fn full_hash(hash: &[u8]) -> (r: Result<FullHash, HashError>)
    ensures
        hash@.len() >= 32 ==> (r matches Ok(h) && h@ == hash@.take(32)),
        hash@.len() < 32 ==> r == Err::<FullHash, HashError>(HashError::InvalidHashLength),
{
    if hash.len() < 32 {
        return Err(HashError::InvalidHashLength);
    }
    let mut out: FullHash = [0u8; 32];
    let mut i: usize = 0;
    while i < 32
        invariant
            i <= 32,
            hash@.len() >= 32,
            out@.len() == 32,
            forall|j: int| 0 <= j < i ==> out@[j] == hash@[j],
        decreases 32 - i,
    {
        out[i] = hash[i];
        i = i + 1;
    }
    proof {
        assert(out@ =~= hash@.take(32));
    }
    Ok(out)
}

/// True of a character that is a hexadecimal digit (either case).
pub open spec fn is_hex_digit(c: char) -> bool {
    (0x30 <= c as u32 && c as u32 <= 0x39) || (0x41 <= c as u32 && c as u32 <= 0x46) || (0x61
        <= c as u32 && c as u32 <= 0x66)
}

/// The numeric value of a hexadecimal digit.
pub open spec fn hex_digit_value(c: char) -> u8
    recommends
        is_hex_digit(c),
{
    if 0x30 <= c as u32 && c as u32 <= 0x39 {
        (c as u32 - 0x30) as u8
    } else if 0x41 <= c as u32 && c as u32 <= 0x46 {
        (c as u32 - 0x37) as u8
    } else {
        (c as u32 - 0x57) as u8
    }
}

/// The bytes denoted by a sequence of hexadecimal digit pairs, two
/// characters per byte, most significant digit first.
pub open spec fn hex_bytes_of(s: Seq<char>) -> Seq<u8> {
    Seq::new((s.len() / 2) as nat, |i: int| (hex_digit_value(s[2 * i]) * 16 + hex_digit_value(s[2 * i + 1])) as u8)
}

fn hex_digit(c: char) -> (v: u8)
    requires
        is_hex_digit(c),
    ensures
        v == hex_digit_value(c),
        v < 16,
{
    let n = c as u32;
    if n >= 0x30 && n <= 0x39 {
        (n - 0x30) as u8
    } else if n >= 0x41 && n <= 0x46 {
        (n - 0x37) as u8
    } else {
        (n - 0x57) as u8
    }
}

/// Decodes hexadecimal text to bytes, two characters per byte, most
/// significant digit first, with no byte-order reversal.
pub fn hex_string_to_bytes(hex: &str) -> (bytes: Vec<u8>)
    requires
        hex@.len() % 2 == 0,
        forall|i: int| 0 <= i < hex@.len() ==> is_hex_digit(#[trigger] hex@[i]),
    ensures
        bytes@ == hex_bytes_of(hex@),
{
    let len = hex.unicode_len();
    let mut bytes: Vec<u8> = Vec::new();
    let mut i: usize = 0;
    while i < len
        invariant
            hex@.len() == len,
            len % 2 == 0,
            i % 2 == 0,
            i <= len,
            forall|k: int| 0 <= k < hex@.len() ==> is_hex_digit(#[trigger] hex@[k]),
            bytes@.len() == i / 2,
            forall|j: int| 0 <= j < i / 2 ==> bytes@[j] == hex_bytes_of(hex@)[j],
        decreases len - i,
    {
        let hi = hex.get_char(i);
        let lo = hex.get_char(i + 1);
        let b = hex_digit(hi) * 16 + hex_digit(lo);
        proof {
            assert(b == hex_bytes_of(hex@)[i as int / 2]);
        }
        bytes.push(b);
        i = i + 2;
    }
    proof {
        assert(bytes@ =~= hex_bytes_of(hex@));
    }
    bytes
}

/// Reverses the order of a vector's elements in place.
pub fn reverse_vec<T>(v: &mut Vec<T>)
    ensures
        final(v)@ == old(v)@.reverse(),
{
    let ghost s = old(v)@;
    let mut out: Vec<T> = Vec::new();
    proof {
        assert(v@ =~= s.take(v@.len() as int));
        assert(out@ =~= s.skip(v@.len() as int).reverse());
    }
    while v.len() != 0
        invariant
            v@.len() <= s.len(),
            v@ == s.take(v@.len() as int),
            out@ == s.skip(v@.len() as int).reverse(),
        decreases v@.len(),
    {
        let ghost m = v@.len() as int;
        let ghost prev = v@;
        let x = v.pop().unwrap();
        out.push(x);
        proof {
            assert(v@ =~= s.take(m - 1)) by {
                assert forall|j: int| 0 <= j < m - 1 implies v@[j] == s[j] by {
                    assert(v@[j] == prev[j]);
                }
            }
            assert(out@ =~= s.skip(m - 1).reverse()) by {
                assert forall|j: int| 0 <= j < out@.len() implies out@[j] == s.skip(m - 1).reverse()[j] by {
                    assert(s.skip(m - 1).reverse()[j] == s.skip(m - 1)[s.len() - (m - 1) - 1 - j]);
                    if j < out@.len() - 1 {
                        assert(out@[j] == s.skip(m).reverse()[j]);
                        assert(s.skip(m).reverse()[j] == s.skip(m)[s.len() - m - 1 - j]);
                    } else {
                        assert(out@[j] == prev[m - 1]);
                        assert(prev[m - 1] == s[m - 1]);
                    }
                }
            }
        }
    }
    proof {
        assert(s.skip(0).reverse() =~= s.reverse());
    }
    *v = out;
}

} // verus!

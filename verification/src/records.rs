//! The record payloads of the block index and their codecs.
//!
//! A metadata record is three fixed-width integers in declared field order;
//! a transaction-id list is a flat run of 32-byte ids whose count is the
//! value's byte length divided by 32. Neither layout carries a length
//! prefix: the store's value length is authoritative, and bytes past a
//! record's required fields are accepted and ignored on decode, so fields
//! can be appended later without invalidating this reader.

use vstd::prelude::*;
use vstd::string::StrSliceExecFns;
use crate::FullHash;
use crate::codec::{ByteOrder, DecodeError, push_u32, read_u32, u32_bytes, u32_of_bytes, lemma_u32_round_trip};

verus! {

/// Block metadata: produced once when a block is indexed, immutable
/// thereafter.
#[derive(Debug, Clone, Copy, PartialEq, Eq, Structural)]
pub struct BlockMeta {
    pub tx_count: u32,
    pub size: u32,
    pub weight: u32,
}

/// The encoded bytes of a metadata record: `tx_count`, `size`, `weight`,
/// each four bytes in the given byte order.
pub open spec fn meta_bytes(order: ByteOrder, m: BlockMeta) -> Seq<u8> {
    u32_bytes(order, m.tx_count) + u32_bytes(order, m.size) + u32_bytes(order, m.weight)
}

/// The metadata record denoted by the first twelve bytes of `s`.
pub open spec fn meta_of_bytes(order: ByteOrder, s: Seq<u8>) -> BlockMeta
    recommends
        s.len() >= 12,
{
    BlockMeta {
        tx_count: u32_of_bytes(order, s.subrange(0, 4)),
        size: u32_of_bytes(order, s.subrange(4, 8)),
        weight: u32_of_bytes(order, s.subrange(8, 12)),
    }
}

/// Encodes a metadata record. Never fails: every field is fixed-width.
pub fn encode_meta(order: ByteOrder, m: &BlockMeta) -> (bytes: Vec<u8>)
    ensures
        bytes@ == meta_bytes(order, *m),
        bytes@.len() == 12,
{
    let mut bytes: Vec<u8> = Vec::new();
    push_u32(&mut bytes, order, m.tx_count);
    push_u32(&mut bytes, order, m.size);
    push_u32(&mut bytes, order, m.weight);
    proof {
        assert(bytes@ =~= meta_bytes(order, *m));
    }
    bytes
}

/// Decodes a metadata record from the leading twelve bytes of `bytes`;
/// trailing bytes are accepted and ignored. Fails with `TruncatedBuffer`
/// exactly when fewer than twelve bytes are supplied.
pub fn decode_meta(order: ByteOrder, bytes: &[u8]) -> (r: Result<BlockMeta, DecodeError>)
    ensures
        bytes@.len() >= 12 ==> r == Ok::<BlockMeta, DecodeError>(meta_of_bytes(order, bytes@)),
        bytes@.len() < 12 ==> r == Err::<BlockMeta, DecodeError>(DecodeError::TruncatedBuffer),
{
    if bytes.len() < 12 {
        return Err(DecodeError::TruncatedBuffer);
    }
    let tx_count = read_u32(bytes, 0, order);
    let size = read_u32(bytes, 4, order);
    let weight = read_u32(bytes, 8, order);
    Ok(BlockMeta { tx_count, size, weight })
}

/// Round trip: decoding an encoded metadata record, with the same byte
/// order, yields the record unchanged.
pub proof fn lemma_meta_round_trip(order: ByteOrder, m: BlockMeta)
    ensures
        meta_of_bytes(order, meta_bytes(order, m)) == m,
{
    lemma_meta_trailing_bytes(order, m, Seq::<u8>::empty());
    assert(meta_bytes(order, m) + Seq::<u8>::empty() =~= meta_bytes(order, m));
}

/// Trailing bytes are ignored: decoding an encoded metadata record with
/// anything appended still yields the record unchanged.
pub proof fn lemma_meta_trailing_bytes(order: ByteOrder, m: BlockMeta, extra: Seq<u8>)
    ensures
        (meta_bytes(order, m) + extra).len() >= 12,
        meta_of_bytes(order, meta_bytes(order, m) + extra) == m,
{
    lemma_u32_round_trip(order, m.tx_count);
    lemma_u32_round_trip(order, m.size);
    lemma_u32_round_trip(order, m.weight);
    let s = meta_bytes(order, m) + extra;
    assert(s.subrange(0, 4) =~= u32_bytes(order, m.tx_count));
    assert(s.subrange(4, 8) =~= u32_bytes(order, m.size));
    assert(s.subrange(8, 12) =~= u32_bytes(order, m.weight));
}

/// True of a field name that denotes the transaction count: the canonical
/// name, or the legacy alias some externally produced payloads carry.
pub open spec fn is_tx_count_name(name: Seq<char>) -> bool {
    name == "tx_count"@ || name == "nTx"@
}

fn str_eq(a: &str, b: &str) -> (r: bool)
    ensures
        r == (a@ == b@),
{
    let alen = a.unicode_len();
    if alen != b.unicode_len() {
        return false;
    }
    let mut i: usize = 0;
    while i < alen
        invariant
            i <= alen,
            alen == a@.len(),
            alen == b@.len(),
            forall|j: int| 0 <= j < i ==> a@[j] == b@[j],
        decreases alen - i,
    {
        if a.get_char(i) != b.get_char(i) {
            return false;
        }
        i = i + 1;
    }
    proof {
        assert(a@ =~= b@);
    }
    true
}

/// Sets the named field of a metadata record, treating the legacy alias of
/// `tx_count` as that same field; returns whether the name was recognized.
/// An externally supplied value carrying the alias therefore decodes to the
/// same `tx_count` as one carrying the canonical name.
pub fn apply_meta_field(m: &mut BlockMeta, name: &str, value: u32) -> (known: bool)
    ensures
        is_tx_count_name(name@) ==> *final(m) == (BlockMeta { tx_count: value, ..*old(m) }),
        name@ == "size"@ ==> *final(m) == (BlockMeta { size: value, ..*old(m) }),
        name@ == "weight"@ ==> *final(m) == (BlockMeta { weight: value, ..*old(m) }),
        known == (is_tx_count_name(name@) || name@ == "size"@ || name@ == "weight"@),
        !known ==> *final(m) == *old(m),
{
    proof {
        reveal_strlit("tx_count");
        reveal_strlit("nTx");
        reveal_strlit("size");
        reveal_strlit("weight");
        assert("tx_count"@.len() == 8 && "nTx"@.len() == 3 && "size"@.len() == 4
            && "weight"@.len() == 6);
    }
    if str_eq(name, "tx_count") || str_eq(name, "nTx") {
        m.tx_count = value;
        true
    } else if str_eq(name, "size") {
        m.size = value;
        true
    } else if str_eq(name, "weight") {
        m.weight = value;
        true
    } else {
        false
    }
}

/// The encoded bytes of a transaction-id list: each id's 32 bytes in list
/// order, nothing else. No multi-byte integer occurs, so both byte orders
/// produce the same bytes.
pub open spec fn txids_bytes(txids: Seq<FullHash>) -> Seq<u8> {
    Seq::new(txids.len() * 32, |i: int| txids[i / 32]@[i % 32])
}

/// Encodes a transaction-id list. Never fails.
pub fn encode_txids(order: ByteOrder, txids: &Vec<FullHash>) -> (bytes: Vec<u8>)
    ensures
        bytes@ == txids_bytes(txids@),
        bytes@.len() == txids@.len() * 32,
{
    let mut bytes: Vec<u8> = Vec::new();
    let mut i: usize = 0;
    while i < txids.len()
        invariant
            i <= txids@.len(),
            bytes@.len() == i * 32,
            forall|k: int| 0 <= k < i * 32 ==> bytes@[k] == txids_bytes(txids@)[k],
        decreases txids@.len() - i,
    {
        let id = &txids[i];
        let mut j: usize = 0;
        while j < 32
            invariant
                i < txids@.len(),
                j <= 32,
                id@ == txids@[i as int]@,
                bytes@.len() == i * 32 + j,
                forall|k: int| 0 <= k < i * 32 + j ==> bytes@[k] == txids_bytes(txids@)[k],
            decreases 32 - j,
        {
            bytes.push(id[j]);
            proof {
                let k = i * 32 + j;
                assert(txids_bytes(txids@)[k as int] == txids@[k as int / 32]@[k as int % 32]);
                assert(k as int / 32 == i as int && k as int % 32 == j as int) by (nonlinear_arith)
                    requires
                        0 <= j < 32,
                        0 <= i,
                        k == i * 32 + j,
                ;
            }
            j = j + 1;
        }
        i = i + 1;
    }
    proof {
        assert(bytes@ =~= txids_bytes(txids@));
    }
    bytes
}

/// Decodes a transaction-id list: the value's byte length divided by 32
/// gives the count, and each id's bytes are taken verbatim in order. Fails
/// with `MalformedListLength` exactly when the length is not a multiple of
/// 32. No multi-byte integer occurs, so the byte order does not affect the
/// result.
pub fn decode_txids(order: ByteOrder, bytes: &[u8]) -> (r: Result<Vec<FullHash>, DecodeError>)
    ensures
        bytes@.len() % 32 == 0 ==> (r matches Ok(txids) && txids@.len() * 32 == bytes@.len()
            && txids_bytes(txids@) == bytes@),
        bytes@.len() % 32 != 0 ==> r == Err::<Vec<FullHash>, DecodeError>(
            DecodeError::MalformedListLength,
        ),
{
    if bytes.len() % 32 != 0 {
        return Err(DecodeError::MalformedListLength);
    }
    let count = bytes.len() / 32;
    let mut txids: Vec<FullHash> = Vec::new();
    let mut i: usize = 0;
    while i < count
        invariant
            i <= count,
            bytes@.len() <= usize::MAX,
            count * 32 == bytes@.len(),
            txids@.len() == i,
            forall|k: int| 0 <= k < i ==> txids@[k]@ =~= bytes@.subrange(k * 32, k * 32 + 32),
        decreases count - i,
    {
        let mut id: FullHash = [0u8; 32];
        proof {
            assert(i * 32 + 32 <= bytes@.len()) by (nonlinear_arith)
                requires
                    0 <= i < count,
                    count * 32 == bytes@.len(),
            ;
        }
        let base = i * 32;
        let mut j: usize = 0;
        while j < 32
            invariant
                j <= 32,
                base == i * 32,
                base + 32 <= bytes@.len(),
                id@.len() == 32,
                forall|k: int| 0 <= k < j ==> id@[k] == bytes@[base + k],
            decreases 32 - j,
        {
            id[j] = bytes[base + j];
            j = j + 1;
        }
        proof {
            assert(id@ =~= bytes@.subrange(i as int * 32, i as int * 32 + 32));
        }
        txids.push(id);
        i = i + 1;
    }
    proof {
        assert(txids_bytes(txids@) =~= bytes@) by {
            assert(txids@.len() * 32 == bytes@.len());
            assert forall|k: int| 0 <= k < bytes@.len() implies txids_bytes(txids@)[k]
                == bytes@[k] by {
                let q = k / 32;
                let rm = k % 32;
                assert(0 <= q < txids@.len() && 0 <= rm < 32 && k == q * 32 + rm)
                    by (nonlinear_arith)
                    requires
                        0 <= k < txids@.len() * 32,
                        q == k / 32,
                        rm == k % 32,
                ;
                assert(txids@[q]@ =~= bytes@.subrange(q * 32, q * 32 + 32));
                assert(txids@[q]@[rm] == bytes@[q * 32 + rm]);
            }
        }
    }
    Ok(txids)
}

} // verus!

//! Key construction: a deterministic, collision-free mapping from a record
//! kind and a 32-byte block hash to the 33-byte physical lookup key.
//!
//! The key is the kind's one-byte prefix followed by the hash verbatim, so
//! keys of one kind sort contiguously and can be range-scanned by prefix.

use vstd::prelude::*;
use crate::{Bytes, FullHash};

verus! {

/// The kind of physical record a key addresses.
#[derive(Debug, Clone, Copy, PartialEq, Eq, Structural)]
pub enum RecordKind {
    /// Consensus-encoded block header bytes (opaque to this crate).
    Header,
    /// Block metadata: transaction count, size and weight.
    MetaSummary,
    /// The block's ordered list of 32-byte transaction ids.
    TxidList,
}

/// The single-byte prefix that tags every key of the given kind.
pub open spec fn prefix_byte(kind: RecordKind) -> u8 {
    match kind {
        RecordKind::Header => 0x42,  // 'B'
        RecordKind::MetaSummary => 0x4D,  // 'M'
        RecordKind::TxidList => 0x58,  // 'X'
    }
}

/// The bytes of the lookup key for the given kind and hash: the kind's
/// prefix byte followed by the hash bytes unmodified.
pub open spec fn key_bytes(kind: RecordKind, hash: Seq<u8>) -> Seq<u8> {
    seq![prefix_byte(kind)] + hash
}

/// The prefix byte of a record kind.
pub fn record_prefix(kind: RecordKind) -> (b: u8)
    ensures
        b == prefix_byte(kind),
{
    match kind {
        RecordKind::Header => 0x42,
        RecordKind::MetaSummary => 0x4D,
        RecordKind::TxidList => 0x58,
    }
}

/// Builds the 33-byte lookup key for a record kind and block hash.
pub fn build_key(kind: RecordKind, hash: FullHash) -> (key: Bytes)
    ensures
        key@ == key_bytes(kind, hash@),
        key@.len() == 33,
{
    let mut key: Vec<u8> = Vec::new();
    let prefix: u8 = record_prefix(kind);
    key.push(prefix);
    let mut i: usize = 0;
    while i < 32
        invariant
            i <= 32,
            key@.len() == i + 1,
            key@[0] == prefix_byte(kind),
            forall|j: int| 0 <= j < i ==> key@[j + 1] == hash@[j],
        decreases 32 - i,
    {
        key.push(hash[i]);
        i = i + 1;
    }
    proof {
        assert(key@ =~= key_bytes(kind, hash@));
    }
    key
}

/// A parsed lookup key: the record tag byte and the block hash it addresses.
pub struct BlockKey {
    pub code: u8,
    pub hash: FullHash,
}

impl BlockKey {
    /// Well-formed when the tag byte is one of the three record prefixes.
    pub open spec fn wf(self) -> bool {
        exists|kind: RecordKind| self.code == prefix_byte(kind)
    }

    /// Builds the parsed key that addresses the given kind of record.
    pub fn new(kind: RecordKind, hash: FullHash) -> (k: BlockKey)
        ensures
            k.code == prefix_byte(kind),
            k.hash == hash,
            k.wf(),
    {
        let k = BlockKey { code: record_prefix(kind), hash };
        proof {
            assert(k.wf()) by {
                assert(k.code == prefix_byte(kind));
            }
        }
        k
    }
}

/// A record row as addressed in the store: its key and its raw value bytes.
pub struct BlockRow {
    pub key: BlockKey,
    pub value: Bytes,
}

impl BlockRow {
    /// The lookup key of the block-header record for the given hash.
    pub fn block_key(hash: FullHash) -> (key: Bytes)
        ensures
            key@ == key_bytes(RecordKind::Header, hash@),
    {
        build_key(RecordKind::Header, hash)
    }

    /// The lookup key of the block-metadata record for the given hash.
    pub fn meta_key(hash: FullHash) -> (key: Bytes)
        ensures
            key@ == key_bytes(RecordKind::MetaSummary, hash@),
    {
        build_key(RecordKind::MetaSummary, hash)
    }

    /// The lookup key of the transaction-id-list record for the given hash.
    pub fn txids_key(hash: FullHash) -> (key: Bytes)
        ensures
            key@ == key_bytes(RecordKind::TxidList, hash@),
    {
        build_key(RecordKind::TxidList, hash)
    }
}

/// Distinct record kinds never collide: their prefix bytes are pairwise
/// distinct, so the keys differ in their first byte.
pub proof fn lemma_key_kind_injective(k1: RecordKind, k2: RecordKind, hash: Seq<u8>)
    requires
        k1 != k2,
    ensures
        key_bytes(k1, hash) != key_bytes(k2, hash),
{
    assert(key_bytes(k1, hash)[0] == prefix_byte(k1));
    assert(key_bytes(k2, hash)[0] == prefix_byte(k2));
}

/// Within one kind, distinct 32-byte hashes never collide: the hash bytes
/// are copied verbatim at a fixed offset, so some key byte differs.
pub proof fn lemma_key_hash_injective(kind: RecordKind, h1: Seq<u8>, h2: Seq<u8>)
    requires
        h1.len() == 32,
        h2.len() == 32,
        h1 != h2,
    ensures
        key_bytes(kind, h1) != key_bytes(kind, h2),
{
    if key_bytes(kind, h1) == key_bytes(kind, h2) {
        assert(h1 =~= h2) by {
            assert forall|i: int| 0 <= i < 32 implies h1[i] == h2[i] by {
                assert(key_bytes(kind, h1)[i + 1] == h1[i]);
                assert(key_bytes(kind, h2)[i + 1] == h2[i]);
            }
        }
    }
}

} // verus!

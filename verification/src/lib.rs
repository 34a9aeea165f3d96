//! Record addressing and binary codec for a block index kept in an ordered
//! key-value store.
//!
//! A 32-byte block hash is mapped to distinct physical records (block header,
//! transaction-id list, block metadata) by prefixing it with a one-byte record
//! tag, and record payloads are encoded with fixed-width integers in an
//! explicitly chosen byte order.

use vstd::prelude::*;

pub mod codec;
pub mod hash;
pub mod keys;
pub mod records;

verus! {

/// Raw value bytes, as stored in or read from the key-value store.
pub type Bytes = Vec<u8>;

/// A canonical 32-byte block hash (a SHA-256 digest in its stored byte
/// order, not the reversed display order).
pub type FullHash = [u8; 32];

} // verus!

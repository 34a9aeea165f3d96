use block_index::codec::{ByteOrder, DecodeError};
use block_index::records::{apply_meta_field, decode_txids, encode_txids, BlockMeta};

#[test]
fn txid_list_of_64_bytes_is_two_ids_in_order() {
    let mut bytes = vec![0xAAu8; 32];
    bytes.extend_from_slice(&[0xBBu8; 32]);
    let txids = decode_txids(ByteOrder::LittleEndian, &bytes).unwrap();
    assert_eq!(txids.len(), 2);
    assert_eq!(txids[0], [0xAAu8; 32]);
    assert_eq!(txids[1], [0xBBu8; 32]);
}

#[test]
fn txid_list_of_65_bytes_is_malformed() {
    let bytes = vec![0u8; 65];
    assert_eq!(
        decode_txids(ByteOrder::LittleEndian, &bytes),
        Err(DecodeError::MalformedListLength)
    );
}

#[test]
fn txid_list_empty_value_is_empty_list() {
    let txids = decode_txids(ByteOrder::LittleEndian, &[]).unwrap();
    assert!(txids.is_empty());
}

#[test]
fn txid_list_round_trip() {
    let ids = vec![[1u8; 32], [2u8; 32], [3u8; 32]];
    let bytes = encode_txids(ByteOrder::LittleEndian, &ids);
    assert_eq!(bytes.len(), 96);
    assert_eq!(decode_txids(ByteOrder::LittleEndian, &bytes), Ok(ids));
}

#[test]
fn txid_list_same_in_either_byte_order() {
    let ids = vec![[9u8; 32]];
    let bytes = encode_txids(ByteOrder::BigEndian, &ids);
    assert_eq!(bytes, encode_txids(ByteOrder::LittleEndian, &ids));
    assert_eq!(
        decode_txids(ByteOrder::BigEndian, &bytes),
        decode_txids(ByteOrder::LittleEndian, &bytes)
    );
}

#[test]
fn tx_count_alias_decodes_like_canonical_name() {
    let zero = BlockMeta { tx_count: 0, size: 0, weight: 0 };

    let mut canonical = zero;
    assert!(apply_meta_field(&mut canonical, "tx_count", 7));

    let mut aliased = zero;
    assert!(apply_meta_field(&mut aliased, "nTx", 7));

    assert_eq!(canonical, aliased);
    assert_eq!(aliased.tx_count, 7);
}

#[test]
fn named_fields_build_a_full_record() {
    let mut m = BlockMeta { tx_count: 0, size: 0, weight: 0 };
    assert!(apply_meta_field(&mut m, "nTx", 1));
    assert!(apply_meta_field(&mut m, "size", 250));
    assert!(apply_meta_field(&mut m, "weight", 1000));
    assert_eq!(m, BlockMeta { tx_count: 1, size: 250, weight: 1000 });
}

#[test]
fn unknown_field_name_is_rejected_and_ignored() {
    let before = BlockMeta { tx_count: 1, size: 2, weight: 3 };
    let mut m = before;
    assert!(!apply_meta_field(&mut m, "txcount", 9));
    assert!(!apply_meta_field(&mut m, "", 9));
    assert_eq!(m, before);
}

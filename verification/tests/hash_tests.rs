use block_index::hash::{full_hash, hex_string_to_bytes, reverse_vec, HashError};

#[test]
fn full_hash_takes_first_32_bytes() {
    let mut input = Vec::new();
    for i in 0..40u8 {
        input.push(i);
    }
    let h = full_hash(&input).unwrap();
    assert_eq!(h.len(), 32);
    for i in 0..32usize {
        assert_eq!(h[i], i as u8);
    }
}

#[test]
fn full_hash_accepts_exactly_32_bytes() {
    let input = [0xCDu8; 32];
    assert_eq!(full_hash(&input), Ok(input));
}

#[test]
fn full_hash_rejects_short_input() {
    assert_eq!(full_hash(&[0u8; 31]), Err(HashError::InvalidHashLength));
    assert_eq!(full_hash(&[]), Err(HashError::InvalidHashLength));
}

#[test]
fn hex_decoding_is_most_significant_first() {
    assert_eq!(hex_string_to_bytes("00ff10"), vec![0x00, 0xFF, 0x10]);
    assert_eq!(hex_string_to_bytes("deadBEEF"), vec![0xDE, 0xAD, 0xBE, 0xEF]);
    assert_eq!(hex_string_to_bytes(""), Vec::<u8>::new());
}

#[test]
fn hex_decoding_a_displayed_hash_then_reversing_gives_stored_order() {
    // A hash displayed in the conventional byte-reversed order must be
    // reversed explicitly after decoding to obtain the stored order.
    let mut bytes = hex_string_to_bytes("0102030405060708");
    reverse_vec(&mut bytes);
    assert_eq!(bytes, vec![0x08, 0x07, 0x06, 0x05, 0x04, 0x03, 0x02, 0x01]);
}

#[test]
fn reverse_vec_reverses_in_place() {
    let mut v = vec![1, 2, 3];
    reverse_vec(&mut v);
    assert_eq!(v, vec![3, 2, 1]);

    let mut single = vec![42];
    reverse_vec(&mut single);
    assert_eq!(single, vec![42]);

    let mut empty: Vec<u8> = Vec::new();
    reverse_vec(&mut empty);
    assert!(empty.is_empty());
}

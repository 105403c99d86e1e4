//! Byte-codec and account-resolution behavior on concrete values.

use multi_tenant_nft_platform::account::{
    account_id_of, fold_bytes_to_i64, hash160_bytes_from_ref, normalize_hash160_bytes, AccountRef,
};
use multi_tenant_nft_platform::encoding::{
    clone_bytes, dec_bytes, hex_encode, i64_from_le_prefix, i64_to_le_bytes, i64_to_min_bytes,
};

#[test]
fn le_bytes_of_small_and_negative_values() {
    assert_eq!(i64_to_le_bytes(0), 0i64.to_le_bytes().to_vec());
    assert_eq!(i64_to_le_bytes(1), vec![1, 0, 0, 0, 0, 0, 0, 0]);
    assert_eq!(i64_to_le_bytes(0x0102_0304), vec![4, 3, 2, 1, 0, 0, 0, 0]);
    assert_eq!(i64_to_le_bytes(-1), vec![0xff; 8]);
    assert_eq!(i64_to_le_bytes(i64::MIN), i64::MIN.to_le_bytes().to_vec());
    assert_eq!(i64_to_le_bytes(i64::MAX), i64::MAX.to_le_bytes().to_vec());
}

#[test]
fn le_prefix_reads_first_eight_bytes() {
    let text = b"https://example.test/base".to_vec();
    assert_eq!(
        i64_from_le_prefix(&text),
        i64::from_le_bytes(*b"https://")
    );
    let short = b"http".to_vec();
    assert_eq!(i64_from_le_prefix(&short), 0);
    let exact = b"ABCDEFGH".to_vec();
    assert_eq!(i64_from_le_prefix(&exact), i64::from_le_bytes(*b"ABCDEFGH"));
    let negative = vec![0xffu8; 8];
    assert_eq!(i64_from_le_prefix(&negative), -1);
}

#[test]
fn le_round_trip_through_prefix_read() {
    for v in [0i64, 1, 255, 256, -1, -12345, i64::MAX, i64::MIN, 987_654_321] {
        assert_eq!(i64_from_le_prefix(&i64_to_le_bytes(v)), v);
    }
}

#[test]
fn minimal_bytes_are_minimal_and_sign_padded() {
    assert_eq!(i64_to_min_bytes(0), Vec::<u8>::new());
    assert_eq!(i64_to_min_bytes(1), vec![1]);
    assert_eq!(i64_to_min_bytes(127), vec![127]);
    assert_eq!(i64_to_min_bytes(128), vec![0x80, 0x00]);
    assert_eq!(i64_to_min_bytes(255), vec![0xff, 0x00]);
    assert_eq!(i64_to_min_bytes(256), vec![0x00, 0x01]);
    assert_eq!(i64_to_min_bytes(0x1234), vec![0x34, 0x12]);
}

#[test]
fn hex_encoding_is_prefixed_lower_case() {
    assert_eq!(hex_encode(&vec![]), b"0x".to_vec());
    assert_eq!(hex_encode(&vec![0xab, 0x01, 0xf0]), b"0xab01f0".to_vec());
    assert_eq!(hex_encode(&vec![0x00]), b"0x00".to_vec());
}

#[test]
fn decimal_rendering() {
    let mut out: Vec<u8> = Vec::new();
    dec_bytes(0, &mut out);
    assert_eq!(out, b"0".to_vec());
    let mut out2: Vec<u8> = b"x".to_vec();
    dec_bytes(500, &mut out2);
    assert_eq!(out2, b"x500".to_vec());
    let mut out3: Vec<u8> = Vec::new();
    dec_bytes(10000, &mut out3);
    assert_eq!(out3, b"10000".to_vec());
}

#[test]
fn clone_bytes_copies_content() {
    let v = vec![1u8, 2, 3];
    assert_eq!(clone_bytes(&v), v);
}

#[test]
fn fold_loads_short_strings_little_endian() {
    assert_eq!(fold_bytes_to_i64(&Vec::new()), 0);
    assert_eq!(fold_bytes_to_i64(&vec![1]), 1);
    assert_eq!(fold_bytes_to_i64(&vec![0, 1]), 256);
    assert_eq!(fold_bytes_to_i64(&vec![0xff; 8]), -1);
}

#[test]
fn fold_hashes_long_strings_to_known_values() {
    // FNV-1a 64 of twenty 0x02 bytes, reinterpreted as signed.
    assert_eq!(fold_bytes_to_i64(&vec![2u8; 20]), 3106018453248129061);
    // This address hashes to a negative pattern: it has no identity.
    assert!(fold_bytes_to_i64(&vec![1u8; 20]) < 0);
}

#[test]
fn resolution_is_deterministic_and_fails_closed() {
    let a = AccountRef::Address(vec![2u8; 20]);
    let b = AccountRef::Address(vec![2u8; 20]);
    let id1 = account_id_of(&a);
    let id2 = account_id_of(&b);
    assert_eq!(id1, id2);
    assert!(id1 > 0);
    // A 19-byte reference resolves to no identity.
    assert_eq!(account_id_of(&AccountRef::Address(vec![2u8; 19])), 0);
    // An address whose fold is negative resolves to no identity.
    assert_eq!(account_id_of(&AccountRef::Address(vec![1u8; 20])), 0);
    // Positive aliases pass through; others fail closed.
    assert_eq!(account_id_of(&AccountRef::Alias(42)), 42);
    assert_eq!(account_id_of(&AccountRef::Alias(0)), 0);
    assert_eq!(account_id_of(&AccountRef::Alias(-7)), 0);
}

#[test]
fn normalization_pads_or_truncates_to_twenty_bytes() {
    let short = vec![0xaau8, 0xbb];
    let n = normalize_hash160_bytes(&short);
    assert_eq!(n.len(), 20);
    assert_eq!(&n[..18], &[0u8; 18][..]);
    assert_eq!(&n[18..], &[0xaa, 0xbb][..]);
    let long: Vec<u8> = (0u8..25).collect();
    let n2 = normalize_hash160_bytes(&long);
    assert_eq!(n2, (5u8..25).collect::<Vec<u8>>());
}

#[test]
fn fallback_address_derives_from_the_id_encoding() {
    assert_eq!(hash160_bytes_from_ref(0), vec![0u8; 20]);
    assert_eq!(hash160_bytes_from_ref(-5), vec![0u8; 20]);
    let d = hash160_bytes_from_ref(0x1234);
    assert_eq!(d.len(), 20);
    let mut expected = vec![0u8; 18];
    expected.extend_from_slice(&[0x34, 0x12]);
    assert_eq!(d, expected);
}

//! The key schema on concrete values: every composite key is its ASCII
//! prefix followed by fixed-width little-endian identifiers and field codes.

use multi_tenant_nft_platform::keys::{
    account_hash_key, balance_key, checkin_program_key, checkin_wallet_key, collection_field_key,
    collection_serial_key, collection_token_key, drop_claimed_key, drop_config_key,
    drop_whitelist_key, global_token_key, membership_balance_key, operator_key,
    owner_collection_key, token_field_key,
};

fn le(v: i64) -> Vec<u8> {
    v.to_le_bytes().to_vec()
}

#[test]
fn collection_keys() {
    let mut expected = b"mnr:c:".to_vec();
    expected.extend_from_slice(&le(7));
    expected.push(0x06);
    assert_eq!(collection_field_key(7, 0x06), expected);

    let mut expected = b"mnr:c:serial:".to_vec();
    expected.extend_from_slice(&le(7));
    assert_eq!(collection_serial_key(7), expected);

    let mut expected = b"mnr:c:token:".to_vec();
    expected.extend_from_slice(&le(7));
    expected.push(b':');
    expected.extend_from_slice(&le(3));
    assert_eq!(collection_token_key(7, 3), expected);
}

#[test]
fn token_and_global_keys() {
    let mut expected = b"mnr:t:".to_vec();
    expected.extend_from_slice(&le(1_000_001));
    expected.push(0x15);
    assert_eq!(token_field_key(1_000_001, 0x15), expected);

    let mut expected = b"mnr:g:token:".to_vec();
    expected.extend_from_slice(&le(4));
    assert_eq!(global_token_key(4), expected);
}

#[test]
fn account_and_balance_keys() {
    let mut expected = b"mnr:balance:".to_vec();
    expected.extend_from_slice(&le(99));
    assert_eq!(balance_key(99), expected);

    let mut expected = b"mnr:account:".to_vec();
    expected.extend_from_slice(&le(99));
    assert_eq!(account_hash_key(99), expected);

    let mut expected = b"mnr:owner:collection:".to_vec();
    expected.extend_from_slice(&le(99));
    assert_eq!(owner_collection_key(99), expected);

    let mut expected = b"mnr:operator:".to_vec();
    expected.extend_from_slice(&le(7));
    expected.push(b':');
    expected.extend_from_slice(&le(99));
    assert_eq!(operator_key(7, 99), expected);
}

#[test]
fn drop_keys() {
    let mut expected = b"mnr:drop:cfg:".to_vec();
    expected.extend_from_slice(&le(7));
    expected.push(0x21);
    assert_eq!(drop_config_key(7, 0x21), expected);

    let mut expected = b"mnr:drop:wl:".to_vec();
    expected.extend_from_slice(&le(7));
    expected.push(b':');
    expected.extend_from_slice(&le(99));
    assert_eq!(drop_whitelist_key(7, 99), expected);

    let mut expected = b"mnr:drop:claimed:".to_vec();
    expected.extend_from_slice(&le(7));
    expected.push(b':');
    expected.extend_from_slice(&le(99));
    assert_eq!(drop_claimed_key(7, 99), expected);
}

#[test]
fn checkin_and_membership_keys() {
    let mut expected = b"mnr:checkin:cfg:".to_vec();
    expected.extend_from_slice(&le(7));
    expected.push(0x31);
    assert_eq!(checkin_program_key(7, 0x31), expected);

    let mut expected = b"mnr:checkin:wallet:".to_vec();
    expected.extend_from_slice(&le(7));
    expected.push(b':');
    expected.extend_from_slice(&le(99));
    expected.push(0x41);
    assert_eq!(checkin_wallet_key(7, 99, 0x41), expected);

    let mut expected = b"mnr:membership:balance:".to_vec();
    expected.extend_from_slice(&le(7));
    expected.push(b':');
    expected.extend_from_slice(&le(99));
    assert_eq!(membership_balance_key(7, 99), expected);
}

#[test]
fn keys_distinguish_identifiers() {
    assert_ne!(collection_field_key(1, 0x01), collection_field_key(2, 0x01));
    assert_ne!(collection_field_key(1, 0x01), collection_field_key(1, 0x02));
    assert_ne!(collection_field_key(1, 0x01), token_field_key(1, 0x01));
    assert_ne!(balance_key(1), account_hash_key(1));
    assert_ne!(drop_whitelist_key(1, 2), drop_claimed_key(1, 2));
}

//! The query and enumeration layer on concrete states: filtered scans,
//! positional lookups, field codes and royalty reporting.

use multi_tenant_nft_platform::account::{account_id_of, AccountRef};
use multi_tenant_nft_platform::state::MultiTenantNftPlatformRust;

fn addr(b: u8) -> AccountRef {
    AccountRef::Address(vec![b; 20])
}

fn setup(royalty_bps: i64) -> (MultiTenantNftPlatformRust, i64, AccountRef) {
    let mut l = MultiTenantNftPlatformRust::new();
    let owner = addr(2);
    let cid = l.create_collection(
        owner.clone(),
        true,
        b"Query Collection".to_vec(),
        b"QRY".to_vec(),
        b"rows under test".to_vec(),
        b"https://example.test/q".to_vec(),
        0,
        royalty_bps,
        true,
        1234,
    );
    assert!(cid > 0);
    (l, cid, owner)
}

#[test]
fn enumeration_skips_burned_tokens_and_filters() {
    let (mut l, cid, owner) = setup(0);
    let alice = addr(3);
    let bob = addr(4);
    let t1 = l.mint(owner.clone(), true, cid, alice.clone(), 0, 0, 0);
    let t2 = l.mint(owner.clone(), true, cid, bob.clone(), 0, 0, 0);
    let t3 = l.mint(owner.clone(), true, cid, alice.clone(), 0, 0, 0);
    assert!(t1 > 0 && t2 > 0 && t3 > 0);
    assert_eq!(l.tokens(), vec![t1, t2, t3]);
    assert_eq!(l.tokens_of(&alice), vec![t1, t3]);
    assert_eq!(l.tokens_of(&bob), vec![t2]);
    assert_eq!(l.get_collection_tokens(cid), vec![t1, t2, t3]);
    assert!(l.burn(alice.clone(), true, t1));
    assert_eq!(l.tokens(), vec![t2, t3]);
    assert_eq!(l.tokens_of(&alice), vec![t3]);
    assert_eq!(l.get_collection_tokens(cid), vec![t2, t3]);
    // The raw global index keeps the burned slot.
    assert_eq!(l.token_by_index(1), t1);
    assert_eq!(l.token_by_index(3), t3);
    assert_eq!(l.token_by_index(4), 0);
    assert_eq!(l.token_by_index(0), 0);
    // Positional lookups into the filtered materialization.
    assert_eq!(l.token_of_by_index(&alice, 1), t3);
    assert_eq!(l.token_of_by_index(&alice, 2), 0);
    assert_eq!(l.token_of_by_index(&bob, 1), t2);
}

#[test]
fn serial_lookup_finds_collection_tokens() {
    let (mut l, cid, owner) = setup(0);
    let t1 = l.mint(owner.clone(), true, cid, addr(3), 0, 0, 0);
    let t2 = l.mint(owner.clone(), true, cid, addr(3), 0, 0, 0);
    assert_eq!(l.get_collection_token_by_serial(cid, 1), t1);
    assert_eq!(l.get_collection_token_by_serial(cid, 2), t2);
    assert_eq!(l.get_collection_token_by_serial(cid, 3), 0);
    assert_eq!(l.get_collection_token_by_serial(0, 1), 0);
}

#[test]
fn collection_field_codes() {
    let (mut l, cid, owner) = setup(500);
    assert_eq!(l.get_collection_field(cid, 1), account_id_of(&owner));
    // Text rows read through the legacy fixed-width integer view.
    assert_eq!(l.get_collection_field(cid, 2), i64::from_le_bytes(*b"Query Co"));
    assert_eq!(l.get_collection_field(cid, 3), 0); // "QRY" is shorter than a row word
    assert_eq!(l.get_collection_field(cid, 4), i64::from_le_bytes(*b"rows und"));
    assert_eq!(l.get_collection_field(cid, 5), i64::from_le_bytes(*b"https://"));
    assert_eq!(l.get_collection_field(cid, 6), 0);
    assert_eq!(l.get_collection_field(cid, 7), 0);
    assert_eq!(l.get_collection_field(cid, 8), 500);
    assert_eq!(l.get_collection_field(cid, 9), 1);
    assert_eq!(l.get_collection_field(cid, 10), 0);
    assert_eq!(l.get_collection_field(cid, 11), 1234);
    assert_eq!(l.get_collection_field(cid, 12), 0);
    assert_eq!(l.get_collection_field(99, 1), 0);
}

#[test]
fn token_field_codes_and_properties() {
    let (mut l, cid, owner) = setup(0);
    let user = addr(3);
    let t = l.mint(owner.clone(), true, cid, user.clone(), 77, 88, 555);
    assert!(t > 0);
    assert_eq!(l.get_token_field(t, 1), cid);
    assert_eq!(l.get_token_field(t, 2), account_id_of(&user));
    assert_eq!(l.get_token_field(t, 3), 77);
    assert_eq!(l.get_token_field(t, 4), 88);
    assert_eq!(l.get_token_field(t, 5), 0);
    assert_eq!(l.get_token_field(t, 6), 555);
    assert_eq!(l.get_token_field(t, 7), 1);
    assert_eq!(l.get_token_field(t, 8), 0);
    assert_eq!(l.get_token_field(999, 1), 0);
    let p = l.properties(t).unwrap();
    assert_eq!(p.token_id, t);
    assert_eq!(p.collection_id, cid);
    assert_eq!(p.owner, account_id_of(&user));
    assert_eq!(p.token_uri_ref, 77);
    assert_eq!(p.properties_ref, 88);
    assert_eq!(p.token_class, 1);
    assert!(l.properties(999).is_none());
    assert!(l.burn(user.clone(), true, t));
    assert_eq!(l.get_token_field(t, 5), 1);
    assert_eq!(l.get_token_class(t), 1);
}

#[test]
fn royalty_report_renders_json() {
    let (mut l, cid, owner) = setup(500);
    let t = l.mint(owner.clone(), true, cid, addr(3), 0, 0, 0);
    assert!(t > 0);
    // The owner address is twenty 0x02 bytes.
    let expected = format!("[{{\"address\":\"0x{}\",\"value\":500}}]", "02".repeat(20));
    assert_eq!(l.get_royalties(t), expected.into_bytes());
    assert_eq!(l.get_royalties(999), b"[]".to_vec());
    // No royalty configured: empty report.
    let (mut l2, cid2, owner2) = setup(0);
    let t2 = l2.mint(owner2.clone(), true, cid2, addr(3), 0, 0, 0);
    assert_eq!(l2.get_royalties(t2), b"[]".to_vec());
    let _ = cid;
}

#[test]
fn royalty_info_computes_the_floored_share() {
    let (mut l, cid, owner) = setup(500);
    let t = l.mint(owner.clone(), true, cid, addr(3), 0, 0, 0);
    assert!(t > 0);
    let (address, amount) = l.royalty_info(t, 0, 10_000).unwrap();
    assert_eq!(address, vec![2u8; 20]);
    assert_eq!(amount, 500);
    // Floor division: 999 * 500 / 10000 = 49.95 rounds down.
    let (_, amount2) = l.royalty_info(t, 0, 999).unwrap();
    assert_eq!(amount2, 49);
    // Non-positive sale price yields nothing.
    assert!(l.royalty_info(t, 0, 0).is_none());
    assert!(l.royalty_info(t, 0, -5).is_none());
    // An overflowing product yields nothing.
    assert!(l.royalty_info(t, 0, i64::MAX).is_none());
    let _ = cid;
}

#[test]
fn empty_ledger_queries() {
    let l = MultiTenantNftPlatformRust::new();
    assert!(l.tokens().is_empty());
    assert_eq!(l.token_by_index(1), 0);
    assert_eq!(l.total_supply(), 0);
    assert!(l.get_collection(1).is_none());
    assert!(l.get_token(1).is_none());
    assert_eq!(l.token_uri(1), 0);
    assert!(l.owner_of(1).is_none());
}

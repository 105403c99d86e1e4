//! The shared state helpers: witness targeting, the reverse address
//! mapping and its fallback, raw balance rows, and the event emitters.

use multi_tenant_nft_platform::account::{account_id_of, AccountRef};
use multi_tenant_nft_platform::records::Event;
use multi_tenant_nft_platform::state::MultiTenantNftPlatformRust;

fn addr(b: u8) -> AccountRef {
    AccountRef::Address(vec![b; 20])
}

#[test]
fn witness_target_names_the_address_to_confirm() {
    let mut l = MultiTenantNftPlatformRust::new();
    // An address reference is its own target.
    assert_eq!(l.witness_target(&addr(2)), Some(vec![2u8; 20]));
    // A reference of the wrong width has no target and fails closed.
    assert_eq!(l.witness_target(&AccountRef::Address(vec![2u8; 19])), None);
    assert!(!l.check_witness_for_account_ref(&AccountRef::Address(vec![2u8; 19]), true));
    // An alias resolves through the stored reverse mapping only.
    let id = l.canonical_account_id(addr(2));
    assert!(id > 0);
    assert_eq!(l.witness_target(&AccountRef::Alias(id)), Some(vec![2u8; 20]));
    assert_eq!(l.witness_target(&AccountRef::Alias(id + 1)), None);
    assert_eq!(l.witness_target(&AccountRef::Alias(0)), None);
    // The oracle's answer decides once a target exists.
    assert!(l.check_witness_for_account_ref(&addr(2), true));
    assert!(!l.check_witness_for_account_ref(&addr(2), false));
    assert!(l.check_witness_for_account_ref(&AccountRef::Alias(id), true));
    assert!(!l.check_witness_for_account_ref(&AccountRef::Alias(id + 1), true));
}

#[test]
fn address_rendering_prefers_the_stored_mapping() {
    let mut l = MultiTenantNftPlatformRust::new();
    let id = l.canonical_account_id(addr(2));
    assert!(id > 0);
    assert_eq!(l.account_hash160(id), vec![2u8; 20]);
    // Without a mapping the address re-derives from the id's own encoding.
    let mut derived = vec![0u8; 18];
    derived.extend_from_slice(&[0x34, 0x12]);
    assert_eq!(l.account_hash160(0x1234), derived);
    // Ids without identity render as the zero address.
    assert_eq!(l.account_hash160(0), vec![0u8; 20]);
    assert_eq!(l.account_hash160(-3), vec![0u8; 20]);
}

#[test]
fn balance_rows_floor_and_saturate() {
    let mut l = MultiTenantNftPlatformRust::new();
    let owner = account_id_of(&addr(2));
    assert_eq!(l.load_balance(owner), 0);
    l.save_balance(owner, 5);
    assert_eq!(l.load_balance(owner), 5);
    assert_eq!(l.load_membership_balance(7, owner), 0);
    // Negative writes floor at zero.
    l.save_membership_balance(7, owner, -3);
    assert_eq!(l.load_membership_balance(7, owner), 0);
    l.add_membership_balance(7, owner, 2);
    assert_eq!(l.load_membership_balance(7, owner), 2);
    // Additions saturate at the numeric ceiling.
    l.add_membership_balance(7, owner, i64::MAX);
    assert_eq!(l.load_membership_balance(7, owner), i64::MAX);
    // Subtractions floor at zero.
    l.save_membership_balance(7, owner, 1);
    l.subtract_membership_balance(7, owner, 5);
    assert_eq!(l.load_membership_balance(7, owner), 0);
}

#[test]
fn event_emitters_append_in_order() {
    let mut l = MultiTenantNftPlatformRust::new();
    let owner = addr(2);
    let cid = l.create_collection(
        owner.clone(),
        true,
        b"Emit Collection".to_vec(),
        b"EMT".to_vec(),
        Vec::new(),
        b"https://example.test/e".to_vec(),
        0,
        250,
        true,
        42,
    );
    assert!(cid > 0);
    let t = l.mint(owner.clone(), true, cid, addr(3), 0, 0, 43);
    assert!(t > 0);
    let before = l.events.len();
    l.emit_transfer(Some(1), None, t);
    l.emit_collection_upserted(cid);
    l.emit_token_upserted(t);
    l.emit_collection_operator_updated(cid, 9, true);
    assert_eq!(l.events.len(), before + 4);
    match &l.events[before] {
        Event::Transfer { from, to, amount, token_id } => {
            assert_eq!((*from, *to, *amount, *token_id), (Some(1), None, 1, t));
        },
        _ => panic!("expected a transfer event"),
    }
    match &l.events[before + 1] {
        Event::CollectionUpserted { collection_id, royalty_bps, minted, created_at, .. } => {
            assert_eq!(*collection_id, cid);
            assert_eq!(*royalty_bps, 250);
            assert_eq!(*minted, 1);
            assert_eq!(*created_at, 42);
        },
        _ => panic!("expected a collection event"),
    }
    match &l.events[before + 2] {
        Event::TokenUpserted { token_id, token } => {
            assert_eq!(*token_id, t);
            assert_eq!(token.owner, account_id_of(&addr(3)));
            assert_eq!(token.minted_at, 43);
        },
        _ => panic!("expected a token event"),
    }
    match &l.events[before + 3] {
        Event::CollectionOperatorUpdated { collection_id, operator, enabled } => {
            assert_eq!((*collection_id, *operator, *enabled), (cid, 9, true));
        },
        _ => panic!("expected an operator event"),
    }
}

#[test]
fn echo_events_read_absent_rows_as_zero() {
    let mut l = MultiTenantNftPlatformRust::new();
    l.emit_collection_upserted(99);
    match l.events.last().unwrap() {
        Event::CollectionUpserted { collection_id, owner, minted, .. } => {
            assert_eq!(*collection_id, 99);
            assert_eq!(*owner, 0);
            assert_eq!(*minted, 0);
        },
        _ => panic!("expected a collection event"),
    }
    l.emit_token_upserted(99);
    match l.events.last().unwrap() {
        Event::TokenUpserted { token_id, token } => {
            assert_eq!(*token_id, 99);
            assert_eq!(token.collection_id, 0);
            assert_eq!(token.owner, 0);
        },
        _ => panic!("expected a token event"),
    }
}

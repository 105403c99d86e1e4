//! Collection lifecycle, minting, burning and transferring on concrete
//! scenarios.

use multi_tenant_nft_platform::account::{account_id_of, AccountRef};
use multi_tenant_nft_platform::records::Event;
use multi_tenant_nft_platform::state::MultiTenantNftPlatformRust;

fn addr(b: u8) -> AccountRef {
    AccountRef::Address(vec![b; 20])
}

fn setup(max_supply: i64, royalty_bps: i64, transferable: bool) -> (
    MultiTenantNftPlatformRust,
    i64,
    AccountRef,
) {
    let mut l = MultiTenantNftPlatformRust::new();
    let owner = addr(2);
    let cid = l.create_collection(
        owner.clone(),
        true,
        b"Test Collection".to_vec(),
        b"TST".to_vec(),
        b"a test collection".to_vec(),
        b"https://example.test/base".to_vec(),
        max_supply,
        royalty_bps,
        transferable,
        1000,
    );
    assert!(cid > 0);
    (l, cid, owner)
}

#[test]
fn symbol_and_decimals_are_fixed() {
    assert_eq!(MultiTenantNftPlatformRust::symbol(), b"MNFTP".to_vec());
    assert_eq!(MultiTenantNftPlatformRust::decimals(), 0);
}

#[test]
fn create_collection_assigns_sequential_ids() {
    let (mut l, cid, owner) = setup(0, 0, true);
    assert_eq!(cid, 1);
    assert!(l.collection_exists(1));
    assert!(!l.collection_exists(2));
    assert_eq!(l.get_owner_dedicated_collection(&owner), 1);
    assert!(l.has_owner_dedicated_collection(&owner));
    // A second owner gets the next id.
    let cid2 = l.create_collection(
        addr(3),
        true,
        b"Second".to_vec(),
        b"SC".to_vec(),
        Vec::new(),
        b"https://example.test/2".to_vec(),
        0,
        0,
        true,
        1001,
    );
    assert_eq!(cid2, 2);
}

#[test]
fn create_collection_rejects_bad_input() {
    let mut l = MultiTenantNftPlatformRust::new();
    let owner = addr(2);
    let uri = b"https://example.test".to_vec();
    // Royalty out of range.
    assert_eq!(
        l.create_collection(owner.clone(), true, b"N".to_vec(), b"S".to_vec(), Vec::new(),
            uri.clone(), 0, 10001, true, 0),
        0
    );
    // Negative supply cap.
    assert_eq!(
        l.create_collection(owner.clone(), true, b"N".to_vec(), b"S".to_vec(), Vec::new(),
            uri.clone(), -1, 0, true, 0),
        0
    );
    // Empty name.
    assert_eq!(
        l.create_collection(owner.clone(), true, Vec::new(), b"S".to_vec(), Vec::new(),
            uri.clone(), 0, 0, true, 0),
        0
    );
    // Name too long.
    assert_eq!(
        l.create_collection(owner.clone(), true, vec![b'x'; 81], b"S".to_vec(), Vec::new(),
            uri.clone(), 0, 0, true, 0),
        0
    );
    // Symbol too long.
    assert_eq!(
        l.create_collection(owner.clone(), true, b"N".to_vec(), vec![b'x'; 13], Vec::new(),
            uri.clone(), 0, 0, true, 0),
        0
    );
    // Empty base URI.
    assert_eq!(
        l.create_collection(owner.clone(), true, b"N".to_vec(), b"S".to_vec(), Vec::new(),
            Vec::new(), 0, 0, true, 0),
        0
    );
    // Witness denied.
    assert_eq!(
        l.create_collection(owner.clone(), false, b"N".to_vec(), b"S".to_vec(), Vec::new(),
            uri.clone(), 0, 0, true, 0),
        0
    );
    // Unresolvable creator (negative fold).
    assert_eq!(
        l.create_collection(addr(1), true, b"N".to_vec(), b"S".to_vec(), Vec::new(),
            uri.clone(), 0, 0, true, 0),
        0
    );
    assert_eq!(l.total_supply(), 0);
    assert!(l.events.is_empty());
}

#[test]
fn one_dedicated_collection_per_owner() {
    let (mut l, _cid, owner) = setup(0, 0, true);
    let again = l.create_collection(
        owner.clone(),
        true,
        b"Another".to_vec(),
        b"AN".to_vec(),
        Vec::new(),
        b"https://example.test/x".to_vec(),
        0,
        0,
        true,
        1002,
    );
    assert_eq!(again, 0);
}

#[test]
fn capped_collection_mints_three_then_stops_and_burn_keeps_minted() {
    // Create with a cap of 3, 500 bps royalty, transferable.
    let (mut l, cid, owner) = setup(3, 500, true);
    let user = addr(3);
    let t1 = l.mint(owner.clone(), true, cid, user.clone(), 0, 0, 1100);
    let t2 = l.mint(owner.clone(), true, cid, user.clone(), 0, 0, 1101);
    let t3 = l.mint(owner.clone(), true, cid, user.clone(), 0, 0, 1102);
    assert_eq!(t1, cid * 1_000_000 + 1);
    assert_eq!(t2, cid * 1_000_000 + 2);
    assert_eq!(t3, cid * 1_000_000 + 3);
    // The fourth mint hits the supply cap.
    assert_eq!(l.mint(owner.clone(), true, cid, user.clone(), 0, 0, 1103), 0);
    assert_eq!(l.balance_of(&user), 3);
    assert_eq!(l.total_supply(), 3);
    assert_eq!(l.get_collection_field(cid, 7), 3);
    // Burn one: balance and supply drop, the minted count never does.
    assert!(l.burn(user.clone(), true, t2));
    assert_eq!(l.balance_of(&user), 2);
    assert_eq!(l.total_supply(), 2);
    assert_eq!(l.get_collection_field(cid, 7), 3);
    // The burned token is retired for good.
    assert!(!l.burn(user.clone(), true, t2));
    assert!(l.token_exists(t2));
    assert_eq!(l.owner_of(t2), None);
    // Burning freed no cap room: the minted count still blocks.
    assert_eq!(l.mint(owner.clone(), true, cid, user.clone(), 0, 0, 1104), 0);
}

#[test]
fn mint_requires_management_rights() {
    let (mut l, cid, owner) = setup(0, 0, true);
    let outsider = addr(4);
    assert_eq!(l.mint(outsider.clone(), true, cid, outsider.clone(), 0, 0, 0), 0);
    // An operator grant makes it possible.
    assert!(l.set_collection_operator(owner.clone(), true, cid, outsider.clone(), true));
    assert!(l.is_collection_operator(cid, &outsider));
    assert!(l.mint(outsider.clone(), true, cid, outsider.clone(), 0, 0, 0) > 0);
    // Revoking takes it away again.
    assert!(l.set_collection_operator(owner.clone(), true, cid, outsider.clone(), false));
    assert!(!l.is_collection_operator(cid, &outsider));
    assert_eq!(l.mint(outsider.clone(), true, cid, outsider.clone(), 0, 0, 0), 0);
}

#[test]
fn self_transfer_is_a_pure_no_op() {
    let (mut l, cid, owner) = setup(0, 0, true);
    let user = addr(3);
    let t = l.mint(owner.clone(), true, cid, user.clone(), 0, 0, 0);
    assert!(t > 0);
    let balance_before = l.balance_of(&user);
    let events_before = l.events.len();
    let membership_before = l.load_membership_balance(cid, account_id_of(&user));
    assert!(l.transfer(user.clone(), true, t, 0));
    assert_eq!(l.balance_of(&user), balance_before);
    assert_eq!(l.events.len(), events_before);
    assert_eq!(l.load_membership_balance(cid, account_id_of(&user)), membership_before);
    let o = l.owner_of(t).unwrap();
    assert_eq!(o, vec![3u8; 20]);
}

#[test]
fn transfer_moves_balances_and_owner() {
    let (mut l, cid, owner) = setup(0, 0, true);
    let alice = addr(3);
    let bob = addr(4);
    let t = l.mint(owner.clone(), true, cid, alice.clone(), 0, 0, 0);
    assert!(t > 0);
    assert!(l.transfer(bob.clone(), true, t, 0));
    assert_eq!(l.balance_of(&alice), 0);
    assert_eq!(l.balance_of(&bob), 1);
    assert_eq!(l.owner_of(t).unwrap(), vec![4u8; 20]);
    // Membership balance moved along (public mints are membership class).
    assert_eq!(l.load_membership_balance(cid, account_id_of(&alice)), 0);
    assert_eq!(l.load_membership_balance(cid, account_id_of(&bob)), 1);
    // The last event is the transfer between the two accounts.
    match l.events.last().unwrap() {
        Event::Transfer { from, to, amount, token_id } => {
            assert_eq!(*from, Some(account_id_of(&alice)));
            assert_eq!(*to, Some(account_id_of(&bob)));
            assert_eq!(*amount, 1);
            assert_eq!(*token_id, t);
        },
        _ => panic!("expected a transfer event"),
    }
}

#[test]
fn transfer_respects_collection_policy() {
    // Non-transferable collection.
    let (mut l, cid, owner) = setup(0, 0, false);
    let user = addr(3);
    let t = l.mint(owner.clone(), true, cid, user.clone(), 0, 0, 0);
    assert!(t > 0);
    assert!(!l.transfer(addr(4), true, t, 0));
    // Transferable but paused.
    let (mut l2, cid2, owner2) = setup(0, 0, true);
    let t2 = l2.mint(owner2.clone(), true, cid2, user.clone(), 0, 0, 0);
    assert!(t2 > 0);
    assert!(l2.update_collection(owner2.clone(), true, cid2, Vec::new(), Vec::new(), 0, true,
        true));
    assert!(!l2.transfer(addr(4), true, t2, 0));
    // Soulbound membership tokens do not move.
    let (mut l3, cid3, owner3) = setup(0, 0, true);
    let t3 = l3.mint(owner3.clone(), true, cid3, user.clone(), 0, 0, 0);
    assert!(t3 > 0);
    assert!(l3.configure_check_in_program(owner3.clone(), true, cid3, false, false, true, 0, 0,
        0, 0, false));
    assert!(!l3.transfer(addr(4), true, t3, 0));
    // The owner's witness gates the move, not the recipient's.
    let (mut l4, cid4, owner4) = setup(0, 0, true);
    let t4 = l4.mint(owner4.clone(), true, cid4, user.clone(), 0, 0, 0);
    assert!(t4 > 0);
    assert!(!l4.transfer(addr(4), false, t4, 0));
}

#[test]
fn non_owner_cannot_reconfigure_someone_elses_collection() {
    let (mut l, cid, _owner) = setup(0, 0, true);
    let intruder = addr(19);
    // The intruder's own witness is valid, but the collection is not theirs.
    assert!(!l.update_collection(intruder.clone(), true, cid, Vec::new(), Vec::new(), 100, true,
        false));
    assert!(!l.configure_drop(intruder.clone(), true, cid, true, 0, 0, 0, false));
    assert!(!l.configure_check_in_program(intruder.clone(), true, cid, true, false, false, 0, 0,
        0, 0, false));
    assert!(!l.set_collection_operator(intruder.clone(), true, cid, addr(20), true));
    assert!(!l.set_drop_whitelist(intruder.clone(), true, cid, addr(20), 5));
}

#[test]
fn update_collection_rewrites_fields() {
    let (mut l, cid, owner) = setup(0, 0, true);
    assert!(l.update_collection(owner.clone(), true, cid, b"new words".to_vec(),
        b"https://example.test/new".to_vec(), 750, false, false));
    let c = l.get_collection(cid).unwrap();
    assert_eq!(c.royalty_bps, 750);
    assert!(!c.transferable);
    assert!(!c.paused);
    // Royalty out of range is rejected whole.
    assert!(!l.update_collection(owner.clone(), true, cid, Vec::new(), Vec::new(), 10001, true,
        false));
    assert_eq!(l.get_collection(cid).unwrap().royalty_bps, 750);
}

#[test]
fn paused_collection_stops_minting() {
    let (mut l, cid, owner) = setup(0, 0, true);
    assert!(l.update_collection(owner.clone(), true, cid, Vec::new(), Vec::new(), 0, true, true));
    assert_eq!(l.mint(owner.clone(), true, cid, addr(3), 0, 0, 0), 0);
}

#[test]
fn owner_address_round_trips_through_the_reverse_mapping() {
    let (mut l, cid, owner) = setup(0, 0, true);
    let user = addr(3);
    let t = l.mint(owner.clone(), true, cid, user.clone(), 0, 0, 0);
    assert!(t > 0);
    // The recorded owner renders as the very address bytes it resolved from.
    assert_eq!(l.owner_of(t).unwrap(), vec![3u8; 20]);
    assert_eq!(l.account_hash160(account_id_of(&user)), vec![3u8; 20]);
    // Resolving the same address again changes nothing.
    let id1 = l.canonical_account_id(user.clone());
    let id2 = l.canonical_account_id(user.clone());
    assert_eq!(id1, id2);
    assert_eq!(id1, account_id_of(&user));
    assert_eq!(l.account_hash160(id1), vec![3u8; 20]);
}

#[test]
fn token_defaults_come_from_collection_rows() {
    let (mut l, cid, owner) = setup(0, 0, true);
    let user = addr(3);
    // Explicit references are kept.
    let t1 = l.mint(owner.clone(), true, cid, user.clone(), 77, 88, 0);
    assert_eq!(l.token_uri(t1), 77);
    assert_eq!(l.get_token_field(t1, 4), 88);
    // Missing references fall back to the legacy fixed-width reads of the
    // base-URI and name rows.
    let t2 = l.mint(owner.clone(), true, cid, user.clone(), 0, 0, 0);
    assert_eq!(l.token_uri(t2), i64::from_le_bytes(*b"https://"));
    assert_eq!(l.get_token_field(t2, 4), i64::from_le_bytes(*b"Test Col"));
}

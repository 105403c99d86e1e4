//! The drop distribution engine on concrete scenarios: caps, windows,
//! whitelists and the `remaining` projection.

use multi_tenant_nft_platform::account::{account_id_of, AccountRef};
use multi_tenant_nft_platform::records::Event;
use multi_tenant_nft_platform::state::MultiTenantNftPlatformRust;

fn addr(b: u8) -> AccountRef {
    AccountRef::Address(vec![b; 20])
}

fn setup(max_supply: i64) -> (MultiTenantNftPlatformRust, i64, AccountRef) {
    let mut l = MultiTenantNftPlatformRust::new();
    let owner = addr(2);
    let cid = l.create_collection(
        owner.clone(),
        true,
        b"Drop Collection".to_vec(),
        b"DRP".to_vec(),
        Vec::new(),
        b"https://example.test/d".to_vec(),
        max_supply,
        0,
        true,
        1000,
    );
    assert!(cid > 0);
    (l, cid, owner)
}

#[test]
fn per_wallet_limit_of_two_blocks_the_third_claim() {
    let (mut l, cid, owner) = setup(0);
    assert!(l.configure_drop(owner.clone(), true, cid, true, 0, 0, 2, false));
    let wallet = addr(3);
    let t1 = l.claim_drop(wallet.clone(), true, cid, 0, 0, 2000);
    let t2 = l.claim_drop(wallet.clone(), true, cid, 0, 0, 2001);
    assert!(t1 > 0);
    assert!(t2 > 0);
    assert_ne!(t1, t2);
    // The third claim for the same wallet fails.
    assert_eq!(l.claim_drop(wallet.clone(), true, cid, 0, 0, 2002), 0);
    let (claimed, allowance, remaining, claimable_now) =
        l.get_drop_wallet_stats(cid, &wallet, 2002).unwrap();
    assert_eq!(claimed, 2);
    assert_eq!(allowance, -1);
    assert_eq!(remaining, 0);
    assert!(!claimable_now);
    assert!(!l.can_claim_drop(cid, &wallet, 2002));
    // Another wallet still can.
    assert!(l.can_claim_drop(cid, &addr(4), 2002));
}

#[test]
fn claim_window_gates_by_time() {
    let (mut l, cid, owner) = setup(0);
    assert!(l.configure_drop(owner.clone(), true, cid, true, 1000, 2000, 0, false));
    let wallet = addr(3);
    assert_eq!(l.claim_drop(wallet.clone(), true, cid, 0, 0, 999), 0);
    assert!(l.claim_drop(wallet.clone(), true, cid, 0, 0, 1000) > 0);
    assert!(l.claim_drop(wallet.clone(), true, cid, 0, 0, 2000) > 0);
    assert_eq!(l.claim_drop(wallet.clone(), true, cid, 0, 0, 2001), 0);
}

#[test]
fn disabled_drop_claims_nothing() {
    let (mut l, cid, owner) = setup(0);
    // Never configured: disabled by default.
    assert_eq!(l.claim_drop(addr(3), true, cid, 0, 0, 0), 0);
    assert_eq!(l.remaining_drop_claims(cid, account_id_of(&addr(3))), 0);
    // Configured but disabled.
    assert!(l.configure_drop(owner.clone(), true, cid, false, 0, 0, 0, false));
    assert_eq!(l.claim_drop(addr(3), true, cid, 0, 0, 0), 0);
}

#[test]
fn configure_drop_validates_window_and_owner() {
    let (mut l, cid, owner) = setup(0);
    // End before start is rejected.
    assert!(!l.configure_drop(owner.clone(), true, cid, true, 2000, 1000, 0, false));
    // Negative bounds are rejected.
    assert!(!l.configure_drop(owner.clone(), true, cid, true, -1, 0, 0, false));
    assert!(!l.configure_drop(owner.clone(), true, cid, true, 0, 0, -1, false));
    // Missing witness is rejected.
    assert!(!l.configure_drop(owner.clone(), false, cid, true, 0, 0, 0, false));
    assert_eq!(l.get_drop_config(cid).unwrap().enabled, false);
}

#[test]
fn whitelist_allowance_caps_claims() {
    let (mut l, cid, owner) = setup(0);
    assert!(l.configure_drop(owner.clone(), true, cid, true, 0, 0, 0, true));
    let wallet = addr(3);
    // No allowance: blocked.
    assert_eq!(l.claim_drop(wallet.clone(), true, cid, 0, 0, 0), 0);
    assert!(l.set_drop_whitelist(owner.clone(), true, cid, wallet.clone(), 1));
    assert!(l.claim_drop(wallet.clone(), true, cid, 0, 0, 0) > 0);
    // The allowance is used up.
    assert_eq!(l.claim_drop(wallet.clone(), true, cid, 0, 0, 0), 0);
    assert_eq!(l.remaining_drop_claims(cid, account_id_of(&wallet)), 0);
}

#[test]
fn remaining_is_the_minimum_of_the_active_caps() {
    let (mut l, cid, owner) = setup(5);
    assert!(l.configure_drop(owner.clone(), true, cid, true, 0, 0, 3, true));
    let wallet = addr(3);
    let wid = account_id_of(&wallet);
    assert!(l.set_drop_whitelist(owner.clone(), true, cid, wallet.clone(), 2));
    // Supply cap 5, wallet cap 3, allowance 2: the allowance binds.
    assert_eq!(l.remaining_drop_claims(cid, wid), 2);
    assert!(l.claim_drop(wallet.clone(), true, cid, 0, 0, 0) > 0);
    assert_eq!(l.remaining_drop_claims(cid, wid), 1);
    assert!(l.claim_drop(wallet.clone(), true, cid, 0, 0, 0) > 0);
    assert_eq!(l.remaining_drop_claims(cid, wid), 0);
    assert_eq!(l.claim_drop(wallet.clone(), true, cid, 0, 0, 0), 0);
}

#[test]
fn remaining_is_unbounded_without_caps() {
    let (mut l, cid, owner) = setup(0);
    assert!(l.configure_drop(owner.clone(), true, cid, true, 0, 0, 0, false));
    assert_eq!(l.remaining_drop_claims(cid, account_id_of(&addr(3))), i64::MAX);
}

#[test]
fn supply_cap_blocks_every_wallet() {
    let (mut l, cid, owner) = setup(1);
    assert!(l.configure_drop(owner.clone(), true, cid, true, 0, 0, 0, false));
    assert!(l.claim_drop(addr(3), true, cid, 0, 0, 0) > 0);
    assert_eq!(l.claim_drop(addr(4), true, cid, 0, 0, 0), 0);
    assert_eq!(l.remaining_drop_claims(cid, account_id_of(&addr(4))), 0);
}

#[test]
fn whitelist_batch_applies_all_entries() {
    let (mut l, cid, owner) = setup(0);
    let accounts = vec![addr(3), addr(4), addr(6)];
    let allowances = vec![1, 2, 3];
    assert!(l.set_drop_whitelist_batch(owner.clone(), true, cid, accounts, allowances));
    assert!(l.configure_drop(owner.clone(), true, cid, true, 0, 0, 0, true));
    assert_eq!(l.remaining_drop_claims(cid, account_id_of(&addr(3))), 1);
    assert_eq!(l.remaining_drop_claims(cid, account_id_of(&addr(4))), 2);
    assert_eq!(l.remaining_drop_claims(cid, account_id_of(&addr(6))), 3);
    // Three whitelist events were appended.
    assert_eq!(l.events.len(), 2 + 3);
}

#[test]
fn whitelist_batch_fails_atomically() {
    let (mut l, cid, owner) = setup(0);
    let events_before = l.events.len();
    // Mismatched lengths.
    assert!(!l.set_drop_whitelist_batch(owner.clone(), true, cid, vec![addr(3), addr(4)],
        vec![1]));
    // A negative allowance poisons the whole batch.
    assert!(!l.set_drop_whitelist_batch(owner.clone(), true, cid, vec![addr(3), addr(4)],
        vec![1, -1]));
    // An unresolvable account poisons the whole batch.
    assert!(!l.set_drop_whitelist_batch(owner.clone(), true, cid, vec![addr(3), addr(1)],
        vec![1, 1]));
    assert_eq!(l.events.len(), events_before);
    assert!(l.configure_drop(owner.clone(), true, cid, true, 0, 0, 0, true));
    assert_eq!(l.remaining_drop_claims(cid, account_id_of(&addr(3))), 0);
}

#[test]
fn claim_emits_transfer_then_drop_claimed() {
    let (mut l, cid, owner) = setup(0);
    assert!(l.configure_drop(owner.clone(), true, cid, true, 0, 0, 0, false));
    let wallet = addr(3);
    let events_before = l.events.len();
    let t = l.claim_drop(wallet.clone(), true, cid, 0, 0, 0);
    assert!(t > 0);
    assert_eq!(l.events.len(), events_before + 2);
    match &l.events[events_before] {
        Event::Transfer { from, to, amount, token_id } => {
            assert_eq!(*from, None);
            assert_eq!(*to, Some(account_id_of(&wallet)));
            assert_eq!(*amount, 1);
            assert_eq!(*token_id, t);
        },
        _ => panic!("expected a transfer event first"),
    }
    match &l.events[events_before + 1] {
        Event::DropClaimed { collection_id, claimer, token_id, claimed_count } => {
            assert_eq!(*collection_id, cid);
            assert_eq!(*claimer, account_id_of(&wallet));
            assert_eq!(*token_id, t);
            assert_eq!(*claimed_count, 1);
        },
        _ => panic!("expected a drop-claimed event second"),
    }
}

//! The check-in program engine on concrete scenarios: intervals, windows,
//! membership gates and proof tokens.

use multi_tenant_nft_platform::account::{account_id_of, AccountRef};
use multi_tenant_nft_platform::state::MultiTenantNftPlatformRust;

fn addr(b: u8) -> AccountRef {
    AccountRef::Address(vec![b; 20])
}

fn setup() -> (MultiTenantNftPlatformRust, i64, AccountRef) {
    let mut l = MultiTenantNftPlatformRust::new();
    let owner = addr(2);
    let cid = l.create_collection(
        owner.clone(),
        true,
        b"Check-In Collection".to_vec(),
        b"CHK".to_vec(),
        Vec::new(),
        b"https://example.test/c".to_vec(),
        0,
        0,
        true,
        1000,
    );
    assert!(cid > 0);
    (l, cid, owner)
}

#[test]
fn interval_gates_successive_check_ins() {
    let (mut l, cid, owner) = setup();
    assert!(l.configure_check_in_program(owner.clone(), true, cid, true, false, false, 0, 0,
        3600, 0, true));
    let wallet = addr(3);
    // First check-in succeeds and mints a proof token.
    let (proof1, count1, at1) = l.check_in(wallet.clone(), true, cid, 0, 0, 1000).unwrap();
    assert!(proof1 > 0);
    assert_eq!(count1, 1);
    assert_eq!(at1, 1000);
    assert_eq!(l.get_token_class(proof1), 2);
    // Half the interval later: not yet eligible.
    assert!(l.check_in(wallet.clone(), true, cid, 0, 0, 1000 + 1800).is_none());
    assert!(!l.can_check_in(cid, &wallet, 1000 + 1800));
    // A full interval later: eligible again.
    assert!(l.can_check_in(cid, &wallet, 1000 + 3600));
    let (proof2, count2, at2) = l.check_in(wallet.clone(), true, cid, 0, 0, 1000 + 3600).unwrap();
    assert!(proof2 > proof1);
    assert_eq!(count2, 2);
    assert_eq!(at2, 1000 + 3600);
}

#[test]
fn proof_tokens_raise_balance_but_not_membership() {
    let (mut l, cid, owner) = setup();
    assert!(l.configure_check_in_program(owner.clone(), true, cid, true, false, false, 0, 0, 0,
        0, true));
    let wallet = addr(3);
    let (proof, _, _) = l.check_in(wallet.clone(), true, cid, 0, 0, 0).unwrap();
    assert!(proof > 0);
    assert_eq!(l.balance_of(&wallet), 1);
    assert_eq!(l.total_supply(), 1);
    assert_eq!(l.load_membership_balance(cid, account_id_of(&wallet)), 0);
}

#[test]
fn check_in_without_proof_minting_only_counts() {
    let (mut l, cid, owner) = setup();
    assert!(l.configure_check_in_program(owner.clone(), true, cid, true, false, false, 0, 0, 0,
        0, false));
    let wallet = addr(3);
    let (proof, count, _) = l.check_in(wallet.clone(), true, cid, 0, 0, 0).unwrap();
    assert_eq!(proof, 0);
    assert_eq!(count, 1);
    assert_eq!(l.balance_of(&wallet), 0);
    assert_eq!(l.total_supply(), 0);
}

#[test]
fn membership_requirement_gates_check_in() {
    let (mut l, cid, owner) = setup();
    assert!(l.configure_check_in_program(owner.clone(), true, cid, true, true, false, 0, 0, 0, 0,
        false));
    let wallet = addr(3);
    assert!(l.check_in(wallet.clone(), true, cid, 0, 0, 0).is_none());
    assert!(!l.can_check_in(cid, &wallet, 0));
    // Holding a membership token satisfies the requirement.
    let t = l.mint(owner.clone(), true, cid, wallet.clone(), 0, 0, 0);
    assert!(t > 0);
    assert!(l.can_check_in(cid, &wallet, 0));
    assert!(l.check_in(wallet.clone(), true, cid, 0, 0, 0).is_some());
}

#[test]
fn per_wallet_check_in_cap() {
    let (mut l, cid, owner) = setup();
    assert!(l.configure_check_in_program(owner.clone(), true, cid, true, false, false, 0, 0, 0,
        2, false));
    let wallet = addr(3);
    assert!(l.check_in(wallet.clone(), true, cid, 0, 0, 0).is_some());
    assert!(l.check_in(wallet.clone(), true, cid, 0, 0, 1).is_some());
    assert!(l.check_in(wallet.clone(), true, cid, 0, 0, 2).is_none());
    let (count, last_at, remaining, can_now) =
        l.get_check_in_wallet_stats(cid, &wallet, 2).unwrap();
    assert_eq!(count, 2);
    assert_eq!(last_at, 1);
    assert_eq!(remaining, 0);
    assert!(!can_now);
}

#[test]
fn check_in_window_and_pause_gate() {
    let (mut l, cid, owner) = setup();
    assert!(l.configure_check_in_program(owner.clone(), true, cid, true, false, false, 1000,
        2000, 0, 0, false));
    let wallet = addr(3);
    assert!(l.check_in(wallet.clone(), true, cid, 0, 0, 999).is_none());
    assert!(l.check_in(wallet.clone(), true, cid, 0, 0, 1500).is_some());
    assert!(l.check_in(wallet.clone(), true, cid, 0, 0, 2001).is_none());
    // Pausing the collection stops check-ins inside the window.
    assert!(l.update_collection(owner.clone(), true, cid, Vec::new(), Vec::new(), 0, true, true));
    assert!(l.check_in(wallet.clone(), true, cid, 0, 0, 1600).is_none());
}

#[test]
fn membership_status_reports_balance_and_flags() {
    let (mut l, cid, owner) = setup();
    assert!(l.configure_check_in_program(owner.clone(), true, cid, true, true, true, 0, 0, 0, 0,
        false));
    let wallet = addr(3);
    let (balance, is_member, required, soulbound) =
        l.get_membership_status(cid, &wallet).unwrap();
    assert_eq!(balance, 0);
    assert!(!is_member);
    assert!(required);
    assert!(soulbound);
    let t = l.mint(owner.clone(), true, cid, wallet.clone(), 0, 0, 0);
    assert!(t > 0);
    let (balance2, is_member2, _, _) = l.get_membership_status(cid, &wallet).unwrap();
    assert_eq!(balance2, 1);
    assert!(is_member2);
}

#[test]
fn check_in_program_round_trips() {
    let (mut l, cid, owner) = setup();
    assert!(l.configure_check_in_program(owner.clone(), true, cid, true, true, false, 10, 20, 5,
        7, true));
    let p = l.get_check_in_program(cid).unwrap();
    assert!(p.enabled);
    assert!(p.membership_required);
    assert!(!p.membership_soulbound);
    assert_eq!(p.start_at, 10);
    assert_eq!(p.end_at, 20);
    assert_eq!(p.interval_seconds, 5);
    assert_eq!(p.max_checkins_per_wallet, 7);
    assert!(p.mint_proof_nft);
    // A window that ends before it starts is rejected.
    assert!(!l.configure_check_in_program(owner.clone(), true, cid, true, false, false, 20, 10,
        0, 0, false));
    assert!(l.get_check_in_program(99).is_none());
}

#[test]
fn burning_the_membership_token_closes_the_gate_again() {
    let (mut l, cid, owner) = setup();
    assert!(l.configure_check_in_program(owner.clone(), true, cid, true, true, false, 0, 0, 0, 0,
        false));
    let wallet = addr(3);
    let t = l.mint(owner.clone(), true, cid, wallet.clone(), 0, 0, 0);
    assert!(t > 0);
    assert!(l.can_check_in(cid, &wallet, 0));
    assert!(l.burn(wallet.clone(), true, t));
    assert_eq!(l.load_membership_balance(cid, account_id_of(&wallet)), 0);
    assert!(!l.can_check_in(cid, &wallet, 0));
}

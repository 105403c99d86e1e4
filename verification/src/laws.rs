//! Ledger-wide laws: the balance and supply accounting of mints and burns,
//! the supply-cap and structural-serial invariants, and the exact agreement
//! between the drop's `remaining` projection and `claim_drop`'s gates.

use vstd::prelude::*;
use crate::account::{spec_account_id, AccountRef};
use crate::drop::spec_window_open;
use crate::records::TOKEN_CLASS_MEMBERSHIP;
use crate::state::MultiTenantNftPlatformRust;
use crate::TOKEN_SERIAL_FACTOR;

verus! {

/// A successful mint raises the recipient's balance and the total supply by
/// exactly 1 each.
pub proof fn lemma_mint_balance_and_supply_delta(
    pre: MultiTenantNftPlatformRust,
    post: MultiTenantNftPlatformRust,
    collection_id: i64,
    to_id: i64,
    token_uri_ref: i64,
    properties_ref: i64,
    token_class: i64,
    now: i64,
)
    requires
        pre.wf(),
        pre.spec_mint_ok(collection_id, to_id, token_class),
        MultiTenantNftPlatformRust::spec_mint_effect(
            pre,
            post,
            collection_id,
            to_id,
            token_uri_ref,
            properties_ref,
            token_class,
            now,
        ),
    ensures
        post.spec_balance(to_id) == pre.spec_balance(to_id) + 1,
        post.total_supply == pre.total_supply + 1,
{
}

/// A successful burn lowers the owner's balance and the total supply by
/// exactly 1 each, floored at 0: neither ever goes negative.
pub proof fn lemma_burn_balance_and_supply_delta(
    pre: MultiTenantNftPlatformRust,
    post: MultiTenantNftPlatformRust,
    token_id: i64,
)
    requires
        pre.wf(),
        pre.tokens@.contains_key(token_id),
        MultiTenantNftPlatformRust::spec_burn_effect(pre, post, token_id),
    ensures
        post.spec_balance(pre.tokens@[token_id].owner) == (if pre.spec_balance(
            pre.tokens@[token_id].owner,
        ) > 0 {
            pre.spec_balance(pre.tokens@[token_id].owner) - 1
        } else {
            0
        }),
        post.total_supply == (if pre.total_supply > 0 {
            pre.total_supply - 1
        } else {
            0
        }),
        post.spec_balance(pre.tokens@[token_id].owner) >= 0,
        post.total_supply >= 0,
{
}

/// A collection's minted count never exceeds its supply cap while the cap
/// is positive: the invariant holds of every well-formed ledger state, and
/// every entry point preserves well-formedness.
pub proof fn lemma_minted_within_cap(l: MultiTenantNftPlatformRust, collection_id: i64)
    requires
        l.wf(),
        l.collections@.contains_key(collection_id),
        l.collections@[collection_id].max_supply > 0,
    ensures
        l.collections@[collection_id].minted <= l.collections@[collection_id].max_supply,
{
}

/// No collection ever issues a serial at or above the structural bound:
/// every issued serial is at most the stored counter, which every
/// well-formed state keeps strictly below the token-id factor.
pub proof fn lemma_serial_structural_bound(l: MultiTenantNftPlatformRust, collection_id: i64)
    requires
        l.wf(),
        l.collections@.contains_key(collection_id),
    ensures
        l.collections@[collection_id].serial < TOKEN_SERIAL_FACTOR,
{
}

/// The read-side replica never disagrees with the write side: a check-in
/// can only succeed at a moment `can_check_in`'s policy gates admit, and
/// when the wallet counter has headroom and any required proof mint can go
/// through, eligibility is exactly what `check_in` demands.
pub proof fn lemma_check_in_lockstep(
    l: MultiTenantNftPlatformRust,
    claimer: AccountRef,
    oracle_ok: bool,
    collection_id: i64,
    now: i64,
)
    requires
        l.wf(),
    ensures
        l.spec_check_in_ok(claimer, oracle_ok, collection_id, now) ==> l.spec_can_checkin_now(
            collection_id,
            spec_account_id(claimer),
            now,
        ),
        (spec_account_id(claimer) > 0 && collection_id >= 1 && l.spec_witness_target(claimer@)
            is Some && oracle_ok && l.collections@.contains_key(collection_id)
            && l.spec_wallet_stats(collection_id, spec_account_id(claimer)).checkin_count
            < i64::MAX && (l.spec_checkin_program(collection_id).mint_proof_nft
            ==> l.spec_mint_ok(
            collection_id,
            spec_account_id(claimer),
            crate::records::TOKEN_CLASS_CHECKIN_PROOF,
        ))) ==> (l.spec_check_in_ok(claimer, oracle_ok, collection_id, now)
            <==> l.spec_can_checkin_now(collection_id, spec_account_id(claimer), now)),
{
}

/// `remaining` agrees exactly with `claim_drop`: when every gate other than
/// the three caps holds — the claimer resolves and is witness-confirmed,
/// the drop is enabled with its window open, the collection exists unpaused,
/// and the mint's structural guards pass — a claim succeeds if and only if
/// the remaining headroom is positive.
pub proof fn lemma_claim_succeeds_iff_remaining(
    l: MultiTenantNftPlatformRust,
    claimer: AccountRef,
    oracle_ok: bool,
    collection_id: i64,
    now: i64,
)
    requires
        l.wf(),
        spec_account_id(claimer) > 0,
        collection_id >= 1,
        l.spec_witness_target(claimer@) is Some,
        oracle_ok,
        l.collections@.contains_key(collection_id),
        l.spec_drop_config(collection_id).enabled,
        spec_window_open(
            l.spec_drop_config(collection_id).enabled,
            l.spec_drop_config(collection_id).start_at,
            l.spec_drop_config(collection_id).end_at,
            now,
        ),
        !l.collections@[collection_id].paused,
        l.spec_claimed(collection_id, spec_account_id(claimer)) < i64::MAX,
        l.collections@[collection_id].serial < 999_999,
        l.collections@[collection_id].minted < i64::MAX,
        collection_id <= (i64::MAX - (l.collections@[collection_id].serial + 1)) / 1_000_000,
        !l.tokens@.contains_key(l.spec_next_token_id(collection_id) as i64),
        l.spec_balance(spec_account_id(claimer)) < i64::MAX,
        l.total_supply < i64::MAX,
        l.global_token_counter < i64::MAX,
    ensures
        l.spec_claim_drop_ok(claimer, oracle_ok, collection_id, now)
            <==> l.spec_remaining_drop_claims(collection_id, spec_account_id(claimer)) > 0,
{
    let aid = spec_account_id(claimer);
    l.lemma_remaining_zero_iff_cap_blocked(collection_id, aid);
    assert(l.spec_remaining_drop_claims(collection_id, aid) >= 0);
    if !l.spec_drop_cap_blocked(collection_id, aid) {
        assert(l.spec_mint_ok(collection_id, aid, TOKEN_CLASS_MEMBERSHIP));
    }
}

} // verus!

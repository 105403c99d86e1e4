//! The drop distribution engine: time-windowed, capped, optionally
//! whitelisted self-service minting on top of the token ledger.
//!
//! `remaining_drop_claims` is a dry-run projection of `claim_drop`'s cap
//! gates and is proved to match them exactly.

use vstd::prelude::*;
use crate::account::{account_id_of, spec_account_id, AccountRef};
use crate::records::{DropConfig, Event, TOKEN_CLASS_MEMBERSHIP};
use crate::state::MultiTenantNftPlatformRust;

verus! {

/// Whether a drop window is open at `now`: enabled, past a positive start
/// bound and not past a positive end bound (0 means unbounded).
pub open spec fn spec_window_open(enabled: bool, start_at: i64, end_at: i64, now: i64) -> bool {
    &&& enabled
    &&& (start_at > 0 ==> now >= start_at)
    &&& (end_at > 0 ==> now <= end_at)
}

/// Whether a drop window is open at `now`.
pub fn drop_claim_window_open(enabled: bool, start_at: i64, end_at: i64, now: i64) -> (r: bool)
    ensures
        r == spec_window_open(enabled, start_at, end_at, now),
{
    if !enabled {
        return false;
    }
    if start_at > 0 && now < start_at {
        return false;
    }
    if end_at > 0 && now > end_at {
        return false;
    }
    true
}

impl MultiTenantNftPlatformRust {
    /// The minted count of a collection; absent records read 0.
    pub open spec fn spec_collection_minted(self, collection_id: i64) -> i64 {
        if self.collections@.contains_key(collection_id) {
            self.collections@[collection_id].minted
        } else {
            0
        }
    }

    /// The mint cap of a collection; absent records read 0 (unlimited).
    pub open spec fn spec_collection_max_supply(self, collection_id: i64) -> i64 {
        if self.collections@.contains_key(collection_id) {
            self.collections@[collection_id].max_supply
        } else {
            0
        }
    }

    /// Whether one of the three claim caps blocks an account: the supply
    /// cap, the per-wallet cap, or the whitelist allowance.
    pub open spec fn spec_drop_cap_blocked(self, collection_id: i64, account_id: i64) -> bool {
        let cfg = self.spec_drop_config(collection_id);
        let minted = self.spec_collection_minted(collection_id);
        let max = self.spec_collection_max_supply(collection_id);
        let claimed = self.spec_claimed(collection_id, account_id);
        let allow = self.spec_allowance(collection_id, account_id);
        ||| (max > 0 && minted >= max)
        ||| (cfg.per_wallet_limit > 0 && claimed >= cfg.per_wallet_limit)
        ||| (cfg.whitelist_required && (allow <= 0 || claimed >= allow))
    }

    /// How many more claims the account can make: the minimum of the active
    /// caps' headrooms, 0 when the drop is disabled or a cap blocks, and the
    /// numeric ceiling when no cap is active.
    pub open spec fn spec_remaining_drop_claims(self, collection_id: i64, account_id: i64) -> int {
        let cfg = self.spec_drop_config(collection_id);
        let minted = self.spec_collection_minted(collection_id);
        let max = self.spec_collection_max_supply(collection_id);
        let claimed = self.spec_claimed(collection_id, account_id);
        let allow = self.spec_allowance(collection_id, account_id);
        if !cfg.enabled {
            0
        } else if self.spec_drop_cap_blocked(collection_id, account_id) {
            0
        } else {
            let s_rem: int = if max > 0 {
                max - minted
            } else {
                i64::MAX + 1
            };
            let w_rem: int = if cfg.per_wallet_limit > 0 {
                cfg.per_wallet_limit - claimed
            } else {
                i64::MAX + 1
            };
            let l_rem: int = if cfg.whitelist_required {
                allow - claimed
            } else {
                i64::MAX + 1
            };
            let m1: int = if w_rem < s_rem {
                w_rem
            } else {
                s_rem
            };
            let m2: int = if l_rem < m1 {
                l_rem
            } else {
                m1
            };
            if m2 > i64::MAX {
                i64::MAX as int
            } else {
                m2
            }
        }
    }

    /// A drop's cap headroom is 0 at exactly the moments a claim would fail
    /// for a cap reason: for an enabled drop, `remaining` is 0 if and only
    /// if the supply cap, the per-wallet cap or the whitelist allowance
    /// blocks the account.
    pub proof fn lemma_remaining_zero_iff_cap_blocked(self, collection_id: i64, account_id: i64)
        requires
            self.wf(),
            self.spec_drop_config(collection_id).enabled,
        ensures
            (self.spec_remaining_drop_claims(collection_id, account_id) == 0)
                <==> self.spec_drop_cap_blocked(collection_id, account_id),
    {
    }

    /// The drop configuration rows of a collection (absent rows read as
    /// disabled), without an existence gate.
    pub(crate) fn drop_config_of(&self, collection_id: i64) -> (r: DropConfig)
        requires
            self.wf(),
        ensures
            r == self.spec_drop_config(collection_id),
    {
        match self.drop_configs.get(collection_id) {
            Some(c) => *c,
            None => DropConfig::empty(),
        }
    }

    /// The claimed-count row of an account.
    pub(crate) fn claimed_of(&self, collection_id: i64, account_id: i64) -> (r: i64)
        requires
            self.wf(),
        ensures
            r == self.spec_claimed(collection_id, account_id),
    {
        match self.drop_claimed.get(collection_id, account_id) {
            Some(v) => *v,
            None => 0,
        }
    }

    /// The whitelist allowance row of an account.
    pub(crate) fn allowance_of(&self, collection_id: i64, account_id: i64) -> (r: i64)
        requires
            self.wf(),
        ensures
            r == self.spec_allowance(collection_id, account_id),
    {
        match self.drop_whitelist.get(collection_id, account_id) {
            Some(v) => *v,
            None => 0,
        }
    }

    /// How many more claims an account can make in a collection's drop,
    /// considering only the caps that are active; the numeric ceiling means
    /// unbounded.  A dry-run projection of `claim_drop`'s cap gates.
    pub fn remaining_drop_claims(&self, collection_id: i64, account_id: i64) -> (r: i64)
        requires
            self.wf(),
        ensures
            r as int == self.spec_remaining_drop_claims(collection_id, account_id),
    {
        let cfg = self.drop_config_of(collection_id);
        if !cfg.enabled {
            return 0;
        }
        let (minted, max_supply) = match self.collections.get(collection_id) {
            Some(c) => (c.minted, c.max_supply),
            None => (0, 0),
        };
        let mut has_finite_cap = false;
        let mut remaining: i64 = 0;
        if max_supply > 0 {
            if minted >= max_supply {
                return 0;
            }
            remaining = max_supply - minted;
            has_finite_cap = true;
        }
        let claimed = self.claimed_of(collection_id, account_id);
        if cfg.per_wallet_limit > 0 {
            if claimed >= cfg.per_wallet_limit {
                return 0;
            }
            let wallet_remaining = cfg.per_wallet_limit - claimed;
            if !has_finite_cap || wallet_remaining < remaining {
                remaining = wallet_remaining;
                has_finite_cap = true;
            }
        }
        if cfg.whitelist_required {
            let allowance = self.allowance_of(collection_id, account_id);
            if allowance <= 0 || claimed >= allowance {
                return 0;
            }
            let whitelist_remaining = allowance - claimed;
            if !has_finite_cap || whitelist_remaining < remaining {
                remaining = whitelist_remaining;
                has_finite_cap = true;
            }
        }
        if !has_finite_cap {
            return i64::MAX;
        }
        remaining
    }

    /// Success condition of a drop configuration update: owner-only,
    /// witness-confirmed, non-negative bounds, and a positive window must
    /// end after it starts.
    pub open spec fn spec_configure_drop_ok(
        self,
        creator: AccountRef,
        oracle_ok: bool,
        collection_id: i64,
        start_at: i64,
        end_at: i64,
        per_wallet_limit: i64,
    ) -> bool {
        &&& spec_account_id(creator) > 0
        &&& collection_id >= 1
        &&& start_at >= 0
        &&& end_at >= 0
        &&& per_wallet_limit >= 0
        &&& !(end_at > 0 && start_at > 0 && end_at <= start_at)
        &&& self.spec_witness_target(creator@) is Some
        &&& oracle_ok
        &&& self.collections@.contains_key(collection_id)
        &&& self.collections@[collection_id].owner == spec_account_id(creator)
    }

    /// Configures a collection's drop.  Owner-only.  Persists the whole
    /// configuration and emits one `DropConfigUpdated` event.  Returns
    /// `false` with the ledger unchanged when a gate fails.
    pub fn configure_drop(
        &mut self,
        creator: AccountRef,
        oracle_ok: bool,
        collection_id: i64,
        enabled: bool,
        start_at: i64,
        end_at: i64,
        per_wallet_limit: i64,
        whitelist_required: bool,
    ) -> (r: bool)
        requires
            old(self).wf(),
        ensures
            final(self).wf(),
            !old(self).spec_configure_drop_ok(
                creator,
                oracle_ok,
                collection_id,
                start_at,
                end_at,
                per_wallet_limit,
            ) ==> r == false && *final(self) == *old(self),
            old(self).spec_configure_drop_ok(
                creator,
                oracle_ok,
                collection_id,
                start_at,
                end_at,
                per_wallet_limit,
            ) ==> r == true && final(self).drop_configs@ == old(self).drop_configs@.insert(
                collection_id,
                (DropConfig { enabled, start_at, end_at, per_wallet_limit, whitelist_required }),
            ) && final(self).account_addresses@ == Self::spec_record_account(
                old(self).account_addresses@,
                creator,
            ) && final(self).events@ == old(self).events@.push(
                (Event::DropConfigUpdated {
                    collection_id,
                    enabled,
                    start_at,
                    end_at,
                    per_wallet_limit,
                    whitelist_required,
                }),
            ) && (*final(self) == (MultiTenantNftPlatformRust {
                drop_configs: final(self).drop_configs,
                account_addresses: final(self).account_addresses,
                events: final(self).events,
                ..(*old(self))
            })),
    {
        let creator_id = account_id_of(&creator);
        if creator_id <= 0 || collection_id <= 0 || start_at < 0 || end_at < 0
            || per_wallet_limit < 0 {
            return false;
        }
        if end_at > 0 && start_at > 0 && end_at <= start_at {
            return false;
        }
        if !self.check_witness_for_account_ref(&creator, oracle_ok) {
            return false;
        }
        let c_owner: i64 = match self.collections.get(collection_id) {
            Some(cc) => cc.owner,
            None => {
                return false;
            },
        };
        if c_owner != creator_id {
            return false;
        }
        self.drop_configs.insert(
            collection_id,
            DropConfig { enabled, start_at, end_at, per_wallet_limit, whitelist_required },
        );
        self.record_account(creator);
        self.events.push(
            Event::DropConfigUpdated {
                collection_id,
                enabled,
                start_at,
                end_at,
                per_wallet_limit,
                whitelist_required,
            },
        );
        proof {
            assert forall|c: i64| #[trigger] self.drop_configs@.contains_key(c) implies
                self.drop_configs@[c].start_at >= 0 && self.drop_configs@[c].end_at >= 0
                && self.drop_configs@[c].per_wallet_limit >= 0 by {
                if c != collection_id {
                    assert(old(self).drop_configs@.contains_key(c));
                }
            }
        }
        true
    }

    /// Success condition of a single whitelist update: owner-only,
    /// witness-confirmed, a resolving account and a non-negative allowance.
    pub open spec fn spec_set_whitelist_ok(
        self,
        creator: AccountRef,
        oracle_ok: bool,
        collection_id: i64,
        account: AccountRef,
        allowance: i64,
    ) -> bool {
        &&& spec_account_id(creator) > 0
        &&& collection_id >= 1
        &&& spec_account_id(account) > 0
        &&& allowance >= 0
        &&& self.spec_witness_target(creator@) is Some
        &&& oracle_ok
        &&& self.collections@.contains_key(collection_id)
        &&& self.collections@[collection_id].owner == spec_account_id(creator)
    }

    /// Sets one account's whitelist allowance.  Owner-only.  Emits one
    /// `DropWhitelistUpdated` event.  Returns `false` with the ledger
    /// unchanged when a gate fails.
    pub fn set_drop_whitelist(
        &mut self,
        creator: AccountRef,
        oracle_ok: bool,
        collection_id: i64,
        account: AccountRef,
        allowance: i64,
    ) -> (r: bool)
        requires
            old(self).wf(),
        ensures
            final(self).wf(),
            !old(self).spec_set_whitelist_ok(creator, oracle_ok, collection_id, account, allowance)
                ==> r == false && *final(self) == *old(self),
            old(self).spec_set_whitelist_ok(creator, oracle_ok, collection_id, account, allowance)
                ==> r == true && final(self).drop_whitelist@ == old(self).drop_whitelist@.insert(
                (collection_id, spec_account_id(account)),
                allowance,
            ) && final(self).account_addresses@ == Self::spec_record_account(
                Self::spec_record_account(old(self).account_addresses@, creator),
                account,
            ) && final(self).events@ == old(self).events@.push(
                (Event::DropWhitelistUpdated {
                    collection_id,
                    account: spec_account_id(account),
                    allowance,
                }),
            ) && (*final(self) == (MultiTenantNftPlatformRust {
                drop_whitelist: final(self).drop_whitelist,
                account_addresses: final(self).account_addresses,
                events: final(self).events,
                ..(*old(self))
            })),
    {
        let creator_id = account_id_of(&creator);
        let account_id = account_id_of(&account);
        if creator_id <= 0 || collection_id <= 0 || account_id <= 0 || allowance < 0 {
            return false;
        }
        if !self.check_witness_for_account_ref(&creator, oracle_ok) {
            return false;
        }
        let c_owner: i64 = match self.collections.get(collection_id) {
            Some(cc) => cc.owner,
            None => {
                return false;
            },
        };
        if c_owner != creator_id {
            return false;
        }
        self.drop_whitelist.insert(collection_id, account_id, allowance);
        self.record_account(creator);
        self.record_account(account);
        self.events.push(
            Event::DropWhitelistUpdated { collection_id, account: account_id, allowance },
        );
        proof {
            assert forall|k: (i64, i64)|
                #[trigger] self.drop_whitelist@.contains_key(k) implies self.drop_whitelist@[k]
                >= 0 by {
                if k != (collection_id, account_id) {
                    assert(old(self).drop_whitelist@.contains_key(k));
                }
            }
        }
        true
    }

    /// Every batch entry resolves to an account and carries a non-negative
    /// allowance.
    pub open spec fn spec_whitelist_entries_ok(
        accounts: Seq<AccountRef>,
        allowances: Seq<i64>,
    ) -> bool {
        forall|i: int|
            0 <= i < accounts.len() ==> spec_account_id(#[trigger] accounts[i]) > 0
                && allowances[i] >= 0
    }

    /// Success condition of a batch whitelist update: owner-only,
    /// witness-confirmed, parallel lists of equal length capped at 500, and
    /// every entry valid; the batch applies atomically or not at all.
    pub open spec fn spec_set_whitelist_batch_ok(
        self,
        creator: AccountRef,
        oracle_ok: bool,
        collection_id: i64,
        accounts: Seq<AccountRef>,
        allowances: Seq<i64>,
    ) -> bool {
        &&& spec_account_id(creator) > 0
        &&& collection_id >= 1
        &&& self.spec_witness_target(creator@) is Some
        &&& oracle_ok
        &&& self.collections@.contains_key(collection_id)
        &&& self.collections@[collection_id].owner == spec_account_id(creator)
        &&& accounts.len() == allowances.len()
        &&& accounts.len() <= 500
        &&& Self::spec_whitelist_entries_ok(accounts, allowances)
    }

    /// The whitelist store after the first `n` batch entries were applied
    /// in order.
    pub open spec fn spec_whitelist_after(
        m: Map<(i64, i64), i64>,
        collection_id: i64,
        accounts: Seq<AccountRef>,
        allowances: Seq<i64>,
        n: int,
    ) -> Map<(i64, i64), i64>
        decreases n,
    {
        if n <= 0 {
            m
        } else {
            Self::spec_whitelist_after(m, collection_id, accounts, allowances, n - 1).insert(
                (collection_id, spec_account_id(accounts[n - 1])),
                allowances[n - 1],
            )
        }
    }

    /// The event log after the first `n` batch entries emitted their
    /// `DropWhitelistUpdated` events in order.
    pub open spec fn spec_whitelist_events(
        es: Seq<Event>,
        collection_id: i64,
        accounts: Seq<AccountRef>,
        allowances: Seq<i64>,
        n: int,
    ) -> Seq<Event>
        decreases n,
    {
        if n <= 0 {
            es
        } else {
            Self::spec_whitelist_events(es, collection_id, accounts, allowances, n - 1).push(
                (Event::DropWhitelistUpdated {
                    collection_id,
                    account: spec_account_id(accounts[n - 1]),
                    allowance: allowances[n - 1],
                }),
            )
        }
    }

    /// The reverse-mapping store after the first `n` batch entries were
    /// recorded in order.
    pub open spec fn spec_record_accounts(
        m: Map<i64, Vec<u8>>,
        accounts: Seq<AccountRef>,
        n: int,
    ) -> Map<i64, Vec<u8>>
        decreases n,
    {
        if n <= 0 {
            m
        } else {
            Self::spec_record_account(
                Self::spec_record_accounts(m, accounts, n - 1),
                accounts[n - 1],
            )
        }
    }

    /// Sets whitelist allowances for parallel lists of accounts and
    /// allowances, applying each entry in order and emitting one
    /// `DropWhitelistUpdated` event per entry.  The whole batch fails
    /// atomically when the lists mismatch in length, exceed 500 entries or
    /// hold any invalid entry.  Returns `false` with the ledger unchanged
    /// when a gate fails.
    pub fn set_drop_whitelist_batch(
        &mut self,
        creator: AccountRef,
        oracle_ok: bool,
        collection_id: i64,
        accounts: Vec<AccountRef>,
        allowances: Vec<i64>,
    ) -> (r: bool)
        requires
            old(self).wf(),
        ensures
            final(self).wf(),
            !old(self).spec_set_whitelist_batch_ok(
                creator,
                oracle_ok,
                collection_id,
                accounts@,
                allowances@,
            ) ==> r == false && *final(self) == *old(self),
            old(self).spec_set_whitelist_batch_ok(
                creator,
                oracle_ok,
                collection_id,
                accounts@,
                allowances@,
            ) ==> r == true && final(self).drop_whitelist@ == Self::spec_whitelist_after(
                old(self).drop_whitelist@,
                collection_id,
                accounts@,
                allowances@,
                accounts@.len() as int,
            ) && final(self).events@ == Self::spec_whitelist_events(
                old(self).events@,
                collection_id,
                accounts@,
                allowances@,
                accounts@.len() as int,
            ) && final(self).account_addresses@ == Self::spec_record_accounts(
                Self::spec_record_account(old(self).account_addresses@, creator),
                accounts@,
                accounts@.len() as int,
            ) && (*final(self) == (MultiTenantNftPlatformRust {
                drop_whitelist: final(self).drop_whitelist,
                account_addresses: final(self).account_addresses,
                events: final(self).events,
                ..(*old(self))
            })),
    {
        let creator_id = account_id_of(&creator);
        if creator_id <= 0 || collection_id <= 0 {
            return false;
        }
        if !self.check_witness_for_account_ref(&creator, oracle_ok) {
            return false;
        }
        let c_owner: i64 = match self.collections.get(collection_id) {
            Some(cc) => cc.owner,
            None => {
                return false;
            },
        };
        if c_owner != creator_id {
            return false;
        }
        let n = accounts.len();
        if n != allowances.len() || n > 500 {
            return false;
        }
        let mut i: usize = 0;
        while i < n
            invariant
                0 <= i <= n,
                n == accounts@.len(),
                n == allowances@.len(),
                self.wf(),
                *self == *old(self),
                forall|j: int|
                    0 <= j < i ==> spec_account_id(#[trigger] accounts@[j]) > 0 && allowances@[j]
                        >= 0,
            decreases n - i,
        {
            let aid = account_id_of(&accounts[i]);
            let allow = allowances[i];
            if aid <= 0 || allow < 0 {
                proof {
                    assert(!(spec_account_id(accounts@[i as int]) > 0 && allowances@[i as int]
                        >= 0));
                }
                return false;
            }
            i = i + 1;
        }
        self.record_account(creator);
        let ghost accounts0: Seq<AccountRef> = accounts@;
        let ghost addr_after_creator: Map<i64, Vec<u8>> = Self::spec_record_account(
            old(self).account_addresses@,
            creator,
        );
        let mut rest = accounts;
        let mut i: usize = 0;
        while i < n
            invariant
                0 <= i <= n,
                n == accounts0.len(),
                n == allowances@.len(),
                rest@ == accounts0.subrange(i as int, n as int),
                forall|j: int|
                    0 <= j < n ==> spec_account_id(#[trigger] accounts0[j]) > 0 && allowances@[j]
                        >= 0,
                self.wf(),
                self.drop_whitelist@ == Self::spec_whitelist_after(
                    old(self).drop_whitelist@,
                    collection_id,
                    accounts0,
                    allowances@,
                    i as int,
                ),
                self.events@ == Self::spec_whitelist_events(
                    old(self).events@,
                    collection_id,
                    accounts0,
                    allowances@,
                    i as int,
                ),
                self.account_addresses@ == Self::spec_record_accounts(
                    addr_after_creator,
                    accounts0,
                    i as int,
                ),
                (*self == (MultiTenantNftPlatformRust {
                    drop_whitelist: self.drop_whitelist,
                    account_addresses: self.account_addresses,
                    events: self.events,
                    ..(*old(self))
                })),
            decreases n - i,
        {
            let ghost rest_pre: Seq<AccountRef> = rest@;
            let ghost wl_pre: Map<(i64, i64), i64> = self.drop_whitelist@;
            let a = rest.remove(0);
            proof {
                assert(a == accounts0[i as int]);
                assert(rest@ =~= accounts0.subrange(i as int + 1, n as int));
            }
            let aid = account_id_of(&a);
            let allow = allowances[i];
            self.drop_whitelist.insert(collection_id, aid, allow);
            self.events.push(
                Event::DropWhitelistUpdated { collection_id, account: aid, allowance: allow },
            );
            self.record_account(a);
            i = i + 1;
            proof {
                assert forall|k: (i64, i64)|
                    #[trigger] self.drop_whitelist@.contains_key(k) implies
                    self.drop_whitelist@[k] >= 0 by {
                    if k != (collection_id, aid) {
                        assert(wl_pre.contains_key(k));
                    }
                }
            }
        }
        true
    }

    /// Success condition of a drop claim: the claimer resolves and is
    /// witness-confirmed, the drop is enabled with its window open, the
    /// collection is not paused, neither the per-wallet cap nor the
    /// whitelist blocks, the claimed counter is below its ceiling, and the
    /// mint itself can go through.
    pub open spec fn spec_claim_drop_ok(
        self,
        claimer: AccountRef,
        oracle_ok: bool,
        collection_id: i64,
        now: i64,
    ) -> bool {
        let cfg = self.spec_drop_config(collection_id);
        let claimed = self.spec_claimed(collection_id, spec_account_id(claimer));
        let allow = self.spec_allowance(collection_id, spec_account_id(claimer));
        &&& spec_account_id(claimer) > 0
        &&& collection_id >= 1
        &&& self.spec_witness_target(claimer@) is Some
        &&& oracle_ok
        &&& self.collections@.contains_key(collection_id)
        &&& cfg.enabled
        &&& spec_window_open(cfg.enabled, cfg.start_at, cfg.end_at, now)
        &&& !self.collections@[collection_id].paused
        &&& (cfg.per_wallet_limit > 0 ==> claimed < cfg.per_wallet_limit)
        &&& (cfg.whitelist_required ==> allow > 0 && claimed < allow)
        &&& claimed < i64::MAX
        &&& self.spec_mint_ok(collection_id, spec_account_id(claimer), TOKEN_CLASS_MEMBERSHIP)
    }

    /// The state change a successful claim performs, `pre` to `post`: the
    /// mint's full effect, plus the claimed count raised by 1 and one
    /// `DropClaimed` event after the mint's `Transfer` event.
    pub open spec fn spec_claim_effect(
        pre: Self,
        post: Self,
        claimer_id: i64,
        collection_id: i64,
        token_uri_ref: i64,
        properties_ref: i64,
        now: i64,
    ) -> bool {
        let tid = pre.spec_next_token_id(collection_id) as i64;
        let s1 = (pre.collections@[collection_id].serial + 1) as i64;
        let claimed1 = (pre.spec_claimed(collection_id, claimer_id) + 1) as i64;
        &&& post.collections@ == pre.collections@.insert(
            collection_id,
            Self::spec_collection_after_mint(pre.collections@[collection_id]),
        )
        &&& post.tokens@ == pre.tokens@.insert(
            tid,
            pre.spec_minted_token(
                collection_id,
                claimer_id,
                token_uri_ref,
                properties_ref,
                TOKEN_CLASS_MEMBERSHIP,
                now,
            ),
        )
        &&& post.balances@ == pre.balances@.insert(
            claimer_id,
            (pre.spec_balance(claimer_id) + 1) as i64,
        )
        &&& post.total_supply == pre.total_supply + 1
        &&& post.global_token_counter == pre.global_token_counter + 1
        &&& post.global_index@ == pre.global_index@.push(tid)
        &&& post.collection_tokens@ == pre.collection_tokens@.insert((collection_id, s1), tid)
        &&& post.membership_balances@ == pre.membership_balances@.insert(
            (collection_id, claimer_id),
            crate::token::spec_saturating_inc(pre.spec_membership(collection_id, claimer_id)),
        )
        &&& post.drop_claimed@ == pre.drop_claimed@.insert((collection_id, claimer_id), claimed1)
        &&& post.events@ == pre.events@.push(
            (Event::Transfer { from: None, to: Some(claimer_id), amount: 1, token_id: tid }),
        ).push(
            (Event::DropClaimed {
                collection_id,
                claimer: claimer_id,
                token_id: tid,
                claimed_count: claimed1,
            }),
        )
        &&& (post == (MultiTenantNftPlatformRust {
            collections: post.collections,
            tokens: post.tokens,
            balances: post.balances,
            membership_balances: post.membership_balances,
            total_supply: post.total_supply,
            global_token_counter: post.global_token_counter,
            global_index: post.global_index,
            collection_tokens: post.collection_tokens,
            drop_claimed: post.drop_claimed,
            account_addresses: post.account_addresses,
            events: post.events,
            ..pre
        }))
    }

    /// Claims one drop token: mints a membership-class token for the
    /// claimer, raises the claimed count by 1 and emits the `Transfer` and
    /// `DropClaimed` events.  Returns the new token id, or 0 with the
    /// ledger unchanged.
    pub fn claim_drop(
        &mut self,
        claimer: AccountRef,
        oracle_ok: bool,
        collection_id: i64,
        token_uri_ref: i64,
        properties_ref: i64,
        now: i64,
    ) -> (r: i64)
        requires
            old(self).wf(),
        ensures
            final(self).wf(),
            !old(self).spec_claim_drop_ok(claimer, oracle_ok, collection_id, now) ==> r == 0
                && *final(self) == *old(self),
            old(self).spec_claim_drop_ok(claimer, oracle_ok, collection_id, now) ==> r as int
                == old(self).spec_next_token_id(collection_id)
                && MultiTenantNftPlatformRust::spec_claim_effect(
                *old(self),
                *final(self),
                spec_account_id(claimer),
                collection_id,
                token_uri_ref,
                properties_ref,
                now,
            ) && final(self).account_addresses@ == Self::spec_record_account(
                old(self).account_addresses@,
                claimer,
            ),
    {
        let claimer_id = account_id_of(&claimer);
        if claimer_id <= 0 || collection_id <= 0 {
            return 0;
        }
        if !self.check_witness_for_account_ref(&claimer, oracle_ok) {
            return 0;
        }
        if !self.collection_exists(collection_id) {
            return 0;
        }
        let cfg = self.drop_config_of(collection_id);
        if !cfg.enabled || !drop_claim_window_open(cfg.enabled, cfg.start_at, cfg.end_at, now) {
            return 0;
        }
        let paused: bool = match self.collections.get(collection_id) {
            Some(c) => c.paused,
            None => {
                proof {
                    assert(false);
                }
                return 0;
            },
        };
        if paused {
            return 0;
        }
        let claimed = self.claimed_of(collection_id, claimer_id);
        if cfg.per_wallet_limit > 0 && claimed >= cfg.per_wallet_limit {
            return 0;
        }
        if cfg.whitelist_required {
            let allowance = self.allowance_of(collection_id, claimer_id);
            if allowance <= 0 || claimed >= allowance {
                return 0;
            }
        }
        if claimed == i64::MAX {
            return 0;
        }
        let token_id = self.mint_token_for_account(
            collection_id,
            claimer_id,
            token_uri_ref,
            properties_ref,
            TOKEN_CLASS_MEMBERSHIP,
            now,
        );
        if token_id <= 0 {
            return 0;
        }
        let next_claimed = claimed + 1;
        self.drop_claimed.insert(collection_id, claimer_id, next_claimed);
        self.events.push(
            Event::DropClaimed {
                collection_id,
                claimer: claimer_id,
                token_id,
                claimed_count: next_claimed,
            },
        );
        self.record_account(claimer);
        proof {
            assert forall|k: (i64, i64)|
                #[trigger] self.drop_claimed@.contains_key(k) implies self.drop_claimed@[k] >= 0
                by {
                if k != (collection_id, claimer_id) {
                    assert(old(self).drop_claimed@.contains_key(k));
                }
            }
        }
        token_id
    }

    /// The drop configuration of an existing collection; `None` when the
    /// collection does not exist.
    pub fn get_drop_config(&self, collection_id: i64) -> (r: Option<DropConfig>)
        requires
            self.wf(),
        ensures
            match r {
                Some(c) => collection_id >= 1 && self.collections@.contains_key(collection_id)
                    && c == self.spec_drop_config(collection_id),
                None => collection_id < 1 || !self.collections@.contains_key(collection_id),
            },
    {
        if collection_id <= 0 {
            return None;
        }
        if !self.collection_exists(collection_id) {
            return None;
        }
        Some(self.drop_config_of(collection_id))
    }

    /// Whether a claim would go through right now for everything but the
    /// mint's own structural guards: enabled, window open, not paused and
    /// cap headroom left.
    pub open spec fn spec_drop_claimable_now(
        self,
        collection_id: i64,
        account_id: i64,
        now: i64,
    ) -> bool {
        let cfg = self.spec_drop_config(collection_id);
        &&& cfg.enabled
        &&& spec_window_open(cfg.enabled, cfg.start_at, cfg.end_at, now)
        &&& !(self.collections@.contains_key(collection_id)
            && self.collections@[collection_id].paused)
        &&& self.spec_remaining_drop_claims(collection_id, account_id) > 0
    }

    /// An account's drop statistics for a collection: claims made, the
    /// whitelist allowance (-1 when no whitelist is required), the remaining
    /// headroom, and whether a claim would go through right now.  `None`
    /// when the collection does not exist or the account does not resolve.
    pub fn get_drop_wallet_stats(
        &self,
        collection_id: i64,
        account: &AccountRef,
        now: i64,
    ) -> (r: Option<(i64, i64, i64, bool)>)
        requires
            self.wf(),
        ensures
            match r {
                Some(t) => collection_id >= 1 && spec_account_id(*account) > 0
                    && self.collections@.contains_key(collection_id) && t.0 == self.spec_claimed(
                    collection_id,
                    spec_account_id(*account),
                ) && t.1 == (if self.spec_drop_config(collection_id).whitelist_required {
                    self.spec_allowance(collection_id, spec_account_id(*account))
                } else {
                    -1i64
                }) && t.2 as int == self.spec_remaining_drop_claims(
                    collection_id,
                    spec_account_id(*account),
                ) && t.3 == self.spec_drop_claimable_now(
                    collection_id,
                    spec_account_id(*account),
                    now,
                ),
                None => collection_id < 1 || spec_account_id(*account) <= 0
                    || !self.collections@.contains_key(collection_id),
            },
    {
        if collection_id <= 0 {
            return None;
        }
        let account_id = account_id_of(account);
        if account_id <= 0 {
            return None;
        }
        if !self.collection_exists(collection_id) {
            return None;
        }
        let cfg = self.drop_config_of(collection_id);
        let claimed = self.claimed_of(collection_id, account_id);
        let allowance: i64 = if cfg.whitelist_required {
            self.allowance_of(collection_id, account_id)
        } else {
            -1
        };
        let remaining = self.remaining_drop_claims(collection_id, account_id);
        let paused: bool = match self.collections.get(collection_id) {
            Some(c) => c.paused,
            None => {
                proof {
                    assert(false);
                }
                return None;
            },
        };
        let claimable_now = cfg.enabled && drop_claim_window_open(
            cfg.enabled,
            cfg.start_at,
            cfg.end_at,
            now,
        ) && !paused && remaining > 0;
        Some((claimed, allowance, remaining, claimable_now))
    }

    /// Whether an account could claim from a collection's drop right now.
    pub fn can_claim_drop(&self, collection_id: i64, account: &AccountRef, now: i64) -> (r: bool)
        requires
            self.wf(),
        ensures
            r == (collection_id >= 1 && spec_account_id(*account) > 0
                && self.collections@.contains_key(collection_id) && self.spec_drop_claimable_now(
                collection_id,
                spec_account_id(*account),
                now,
            )),
    {
        if collection_id <= 0 {
            return false;
        }
        let account_id = account_id_of(account);
        if account_id <= 0 {
            return false;
        }
        if !self.collection_exists(collection_id) {
            return false;
        }
        let cfg = self.drop_config_of(collection_id);
        let paused: bool = match self.collections.get(collection_id) {
            Some(c) => c.paused,
            None => {
                proof {
                    assert(false);
                }
                return false;
            },
        };
        cfg.enabled && drop_claim_window_open(cfg.enabled, cfg.start_at, cfg.end_at, now)
            && !paused && self.remaining_drop_claims(collection_id, account_id) > 0
    }
}

} // verus!

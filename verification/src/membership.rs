//! The check-in program engine: a recurring, interval-gated,
//! membership-gated action that raises a per-wallet counter and optionally
//! mints a proof token through the token ledger.

use vstd::prelude::*;
use crate::account::{account_id_of, spec_account_id, AccountRef};
use crate::drop::spec_window_open;
use crate::records::{CheckInProgram, Event, WalletStats, TOKEN_CLASS_CHECKIN_PROOF};
use crate::state::MultiTenantNftPlatformRust;

verus! {

/// Whether a check-in window is open at `now`.
pub fn checkin_window_open(enabled: bool, start_at: i64, end_at: i64, now: i64) -> (r: bool)
    ensures
        r == spec_window_open(enabled, start_at, end_at, now),
{
    if !enabled {
        return false;
    }
    if start_at > 0 && now < start_at {
        return false;
    }
    if end_at > 0 && now > end_at {
        return false;
    }
    true
}

impl MultiTenantNftPlatformRust {
    /// The check-in program rows of a collection (absent rows read as
    /// disabled), without an existence gate.
    pub(crate) fn checkin_program_of(&self, collection_id: i64) -> (r: CheckInProgram)
        requires
            self.wf(),
        ensures
            r == self.spec_checkin_program(collection_id),
    {
        match self.checkin_programs.get(collection_id) {
            Some(p) => *p,
            None => CheckInProgram::empty(),
        }
    }

    /// The check-in statistics row of a wallet.
    pub(crate) fn wallet_stats_of(&self, collection_id: i64, account_id: i64) -> (r: WalletStats)
        requires
            self.wf(),
        ensures
            r == self.spec_wallet_stats(collection_id, account_id),
    {
        match self.checkin_wallets.get(collection_id, account_id) {
            Some(s) => *s,
            None => WalletStats::empty(),
        }
    }

    /// The read-side replica of `check_in`'s policy gates: enabled, not
    /// paused, window open, membership held if required, under the
    /// per-wallet cap, and past the configured interval (an interval sum
    /// overflowing the numeric range means "not yet eligible").
    pub open spec fn spec_can_checkin_now(self, collection_id: i64, account_id: i64, now: i64) -> bool {
        let p = self.spec_checkin_program(collection_id);
        let stats = self.spec_wallet_stats(collection_id, account_id);
        &&& p.enabled
        &&& !(self.collections@.contains_key(collection_id)
            && self.collections@[collection_id].paused)
        &&& spec_window_open(p.enabled, p.start_at, p.end_at, now)
        &&& (p.membership_required ==> self.spec_membership(collection_id, account_id) > 0)
        &&& (p.max_checkins_per_wallet > 0 ==> stats.checkin_count < p.max_checkins_per_wallet)
        &&& (p.interval_seconds > 0 && stats.last_checkin_at > 0 ==> stats.last_checkin_at
            + p.interval_seconds <= i64::MAX && now >= stats.last_checkin_at + p.interval_seconds)
    }

    /// Success condition of a check-in program update: owner-only,
    /// witness-confirmed, non-negative bounds, and a positive window must
    /// end after it starts.
    pub open spec fn spec_configure_checkin_ok(
        self,
        creator: AccountRef,
        oracle_ok: bool,
        collection_id: i64,
        start_at: i64,
        end_at: i64,
        interval_seconds: i64,
        max_checkins_per_wallet: i64,
    ) -> bool {
        &&& spec_account_id(creator) > 0
        &&& collection_id >= 1
        &&& start_at >= 0
        &&& end_at >= 0
        &&& interval_seconds >= 0
        &&& max_checkins_per_wallet >= 0
        &&& !(end_at > 0 && start_at > 0 && end_at <= start_at)
        &&& self.spec_witness_target(creator@) is Some
        &&& oracle_ok
        &&& self.collections@.contains_key(collection_id)
        &&& self.collections@[collection_id].owner == spec_account_id(creator)
    }

    /// Configures a collection's check-in program.  Owner-only.  The
    /// soulbound flag set here governs membership-token transferability and
    /// is read by the token ledger.  Emits one `CheckInProgramUpdated`
    /// event.  Returns `false` with the ledger unchanged when a gate fails.
    pub fn configure_check_in_program(
        &mut self,
        creator: AccountRef,
        oracle_ok: bool,
        collection_id: i64,
        enabled: bool,
        membership_required: bool,
        membership_soulbound: bool,
        start_at: i64,
        end_at: i64,
        interval_seconds: i64,
        max_checkins_per_wallet: i64,
        mint_proof_nft: bool,
    ) -> (r: bool)
        requires
            old(self).wf(),
        ensures
            final(self).wf(),
            !old(self).spec_configure_checkin_ok(
                creator,
                oracle_ok,
                collection_id,
                start_at,
                end_at,
                interval_seconds,
                max_checkins_per_wallet,
            ) ==> r == false && *final(self) == *old(self),
            old(self).spec_configure_checkin_ok(
                creator,
                oracle_ok,
                collection_id,
                start_at,
                end_at,
                interval_seconds,
                max_checkins_per_wallet,
            ) ==> r == true && final(self).checkin_programs@ == old(
                self,
            ).checkin_programs@.insert(
                collection_id,
                (CheckInProgram {
                    enabled,
                    membership_required,
                    membership_soulbound,
                    start_at,
                    end_at,
                    interval_seconds,
                    max_checkins_per_wallet,
                    mint_proof_nft,
                }),
            ) && final(self).account_addresses@ == Self::spec_record_account(
                old(self).account_addresses@,
                creator,
            ) && final(self).events@ == old(self).events@.push(
                (Event::CheckInProgramUpdated {
                    collection_id,
                    program: CheckInProgram {
                        enabled,
                        membership_required,
                        membership_soulbound,
                        start_at,
                        end_at,
                        interval_seconds,
                        max_checkins_per_wallet,
                        mint_proof_nft,
                    },
                }),
            ) && (*final(self) == (MultiTenantNftPlatformRust {
                checkin_programs: final(self).checkin_programs,
                account_addresses: final(self).account_addresses,
                events: final(self).events,
                ..(*old(self))
            })),
    {
        let creator_id = account_id_of(&creator);
        if creator_id <= 0 || collection_id <= 0 || start_at < 0 || end_at < 0
            || interval_seconds < 0 || max_checkins_per_wallet < 0 {
            return false;
        }
        if end_at > 0 && start_at > 0 && end_at <= start_at {
            return false;
        }
        if !self.check_witness_for_account_ref(&creator, oracle_ok) {
            return false;
        }
        let c_owner: i64 = match self.collections.get(collection_id) {
            Some(cc) => cc.owner,
            None => {
                return false;
            },
        };
        if c_owner != creator_id {
            return false;
        }
        self.checkin_programs.insert(
            collection_id,
            CheckInProgram {
                enabled,
                membership_required,
                membership_soulbound,
                start_at,
                end_at,
                interval_seconds,
                max_checkins_per_wallet,
                mint_proof_nft,
            },
        );
        self.record_account(creator);
        self.events.push(
            Event::CheckInProgramUpdated {
                collection_id,
                program: CheckInProgram {
                    enabled,
                    membership_required,
                    membership_soulbound,
                    start_at,
                    end_at,
                    interval_seconds,
                    max_checkins_per_wallet,
                    mint_proof_nft,
                },
            },
        );
        proof {
            assert forall|c: i64| #[trigger] self.checkin_programs@.contains_key(c) implies
                self.checkin_programs@[c].start_at >= 0 && self.checkin_programs@[c].end_at >= 0
                && self.checkin_programs@[c].interval_seconds >= 0
                && self.checkin_programs@[c].max_checkins_per_wallet >= 0 by {
                if c != collection_id {
                    assert(old(self).checkin_programs@.contains_key(c));
                }
            }
        }
        true
    }

    /// Success condition of a check-in: the claimer resolves and is
    /// witness-confirmed, the policy gates of `spec_can_checkin_now` hold,
    /// the counter is below its ceiling, and when the program mints a proof
    /// token the mint itself can go through.
    pub open spec fn spec_check_in_ok(
        self,
        claimer: AccountRef,
        oracle_ok: bool,
        collection_id: i64,
        now: i64,
    ) -> bool {
        &&& spec_account_id(claimer) > 0
        &&& collection_id >= 1
        &&& self.spec_witness_target(claimer@) is Some
        &&& oracle_ok
        &&& self.collections@.contains_key(collection_id)
        &&& self.spec_can_checkin_now(collection_id, spec_account_id(claimer), now)
        &&& self.spec_wallet_stats(collection_id, spec_account_id(claimer)).checkin_count
            < i64::MAX
        &&& (self.spec_checkin_program(collection_id).mint_proof_nft ==> self.spec_mint_ok(
            collection_id,
            spec_account_id(claimer),
            TOKEN_CLASS_CHECKIN_PROOF,
        ))
    }

    /// The state change a successful check-in performs, `pre` to `post`.
    /// With a proof mint configured: the mint's full effect, the wallet row
    /// updated, and the `Transfer` then `CheckedIn` events.  Without: only
    /// the wallet row and one `CheckedIn` event.
    pub open spec fn spec_check_in_effect(
        pre: Self,
        post: Self,
        claimer_id: i64,
        collection_id: i64,
        token_uri_ref: i64,
        properties_ref: i64,
        now: i64,
    ) -> bool {
        let p = pre.spec_checkin_program(collection_id);
        let count1 = (pre.spec_wallet_stats(collection_id, claimer_id).checkin_count + 1) as i64;
        let tid = pre.spec_next_token_id(collection_id) as i64;
        let s1 = (pre.collections@[collection_id].serial + 1) as i64;
        let stats1 = (WalletStats { checkin_count: count1, last_checkin_at: now });
        if p.mint_proof_nft {
            &&& post.collections@ == pre.collections@.insert(
                collection_id,
                Self::spec_collection_after_mint(pre.collections@[collection_id]),
            )
            &&& post.tokens@ == pre.tokens@.insert(
                tid,
                pre.spec_minted_token(
                    collection_id,
                    claimer_id,
                    token_uri_ref,
                    properties_ref,
                    TOKEN_CLASS_CHECKIN_PROOF,
                    now,
                ),
            )
            &&& post.balances@ == pre.balances@.insert(
                claimer_id,
                (pre.spec_balance(claimer_id) + 1) as i64,
            )
            &&& post.total_supply == pre.total_supply + 1
            &&& post.global_token_counter == pre.global_token_counter + 1
            &&& post.global_index@ == pre.global_index@.push(tid)
            &&& post.collection_tokens@ == pre.collection_tokens@.insert(
                (collection_id, s1),
                tid,
            )
            &&& post.checkin_wallets@ == pre.checkin_wallets@.insert(
                (collection_id, claimer_id),
                stats1,
            )
            &&& post.events@ == pre.events@.push(
                (Event::Transfer { from: None, to: Some(claimer_id), amount: 1, token_id: tid }),
            ).push(
                (Event::CheckedIn {
                    collection_id,
                    account: claimer_id,
                    check_in_count: count1,
                    checked_at: now,
                    proof_token_id: tid,
                }),
            )
            &&& (post == (MultiTenantNftPlatformRust {
                collections: post.collections,
                tokens: post.tokens,
                balances: post.balances,
                total_supply: post.total_supply,
                global_token_counter: post.global_token_counter,
                global_index: post.global_index,
                collection_tokens: post.collection_tokens,
                checkin_wallets: post.checkin_wallets,
                account_addresses: post.account_addresses,
                events: post.events,
                ..pre
            }))
        } else {
            &&& post.checkin_wallets@ == pre.checkin_wallets@.insert(
                (collection_id, claimer_id),
                stats1,
            )
            &&& post.events@ == pre.events@.push(
                (Event::CheckedIn {
                    collection_id,
                    account: claimer_id,
                    check_in_count: count1,
                    checked_at: now,
                    proof_token_id: 0,
                }),
            )
            &&& (post == (MultiTenantNftPlatformRust {
                checkin_wallets: post.checkin_wallets,
                account_addresses: post.account_addresses,
                events: post.events,
                ..pre
            }))
        }
    }

    /// Performs a check-in: raises the wallet's counter, records the
    /// timestamp, optionally mints a proof token first, and emits the
    /// `CheckedIn` event.  Returns the proof token id (0 when none), the
    /// new cumulative count and the timestamp, or `None` with the ledger
    /// unchanged when a gate fails or a required proof mint cannot go
    /// through.
    pub fn check_in(
        &mut self,
        claimer: AccountRef,
        oracle_ok: bool,
        collection_id: i64,
        token_uri_ref: i64,
        properties_ref: i64,
        now: i64,
    ) -> (r: Option<(i64, i64, i64)>)
        requires
            old(self).wf(),
        ensures
            final(self).wf(),
            !old(self).spec_check_in_ok(claimer, oracle_ok, collection_id, now) ==> r is None
                && *final(self) == *old(self),
            old(self).spec_check_in_ok(claimer, oracle_ok, collection_id, now) ==> r == Some(
                (
                    (if old(self).spec_checkin_program(collection_id).mint_proof_nft {
                        old(self).spec_next_token_id(collection_id) as i64
                    } else {
                        0i64
                    }),
                    (old(self).spec_wallet_stats(
                        collection_id,
                        spec_account_id(claimer),
                    ).checkin_count + 1) as i64,
                    now,
                ),
            ) && MultiTenantNftPlatformRust::spec_check_in_effect(
                *old(self),
                *final(self),
                spec_account_id(claimer),
                collection_id,
                token_uri_ref,
                properties_ref,
                now,
            ) && final(self).account_addresses@ == Self::spec_record_account(
                old(self).account_addresses@,
                claimer,
            ),
    {
        let claimer_id = account_id_of(&claimer);
        if claimer_id <= 0 || collection_id <= 0 {
            return None;
        }
        if !self.check_witness_for_account_ref(&claimer, oracle_ok) {
            return None;
        }
        if !self.collection_exists(collection_id) {
            return None;
        }
        let p = self.checkin_program_of(collection_id);
        if !p.enabled || !checkin_window_open(p.enabled, p.start_at, p.end_at, now) {
            return None;
        }
        let paused: bool = match self.collections.get(collection_id) {
            Some(c) => c.paused,
            None => {
                proof {
                    assert(false);
                }
                return None;
            },
        };
        if paused {
            return None;
        }
        if p.membership_required && self.load_membership_balance(collection_id, claimer_id) <= 0 {
            return None;
        }
        let stats = self.wallet_stats_of(collection_id, claimer_id);
        if p.max_checkins_per_wallet > 0 && stats.checkin_count >= p.max_checkins_per_wallet {
            return None;
        }
        if p.interval_seconds > 0 && stats.last_checkin_at > 0 {
            if stats.last_checkin_at > i64::MAX - p.interval_seconds {
                return None;
            }
            if now < stats.last_checkin_at + p.interval_seconds {
                return None;
            }
        }
        if stats.checkin_count == i64::MAX {
            return None;
        }
        let mut proof_token_id: i64 = 0;
        if p.mint_proof_nft {
            proof_token_id = self.mint_token_for_account(
                collection_id,
                claimer_id,
                token_uri_ref,
                properties_ref,
                TOKEN_CLASS_CHECKIN_PROOF,
                now,
            );
            if proof_token_id <= 0 {
                return None;
            }
        }
        let next_count = stats.checkin_count + 1;
        self.checkin_wallets.insert(
            collection_id,
            claimer_id,
            WalletStats { checkin_count: next_count, last_checkin_at: now },
        );
        self.events.push(
            Event::CheckedIn {
                collection_id,
                account: claimer_id,
                check_in_count: next_count,
                checked_at: now,
                proof_token_id,
            },
        );
        self.record_account(claimer);
        proof {
            assert forall|k: (i64, i64)|
                #[trigger] self.checkin_wallets@.contains_key(k) implies
                self.checkin_wallets@[k].checkin_count >= 0 by {
                if k != (collection_id, claimer_id) {
                    assert(old(self).checkin_wallets@.contains_key(k));
                }
            }
        }
        Some((proof_token_id, next_count, now))
    }

    /// The check-in program of an existing collection; `None` when the
    /// collection does not exist.
    pub fn get_check_in_program(&self, collection_id: i64) -> (r: Option<CheckInProgram>)
        requires
            self.wf(),
        ensures
            match r {
                Some(p) => collection_id >= 1 && self.collections@.contains_key(collection_id)
                    && p == self.spec_checkin_program(collection_id),
                None => collection_id < 1 || !self.collections@.contains_key(collection_id),
            },
    {
        if collection_id <= 0 {
            return None;
        }
        if !self.collection_exists(collection_id) {
            return None;
        }
        Some(self.checkin_program_of(collection_id))
    }

    /// A wallet's check-in statistics for a collection: cumulative count,
    /// last check-in timestamp, remaining check-ins under the per-wallet
    /// cap (the numeric ceiling when uncapped), and whether a check-in
    /// would go through right now.  `None` when the collection does not
    /// exist or the account does not resolve.
    pub fn get_check_in_wallet_stats(
        &self,
        collection_id: i64,
        account: &AccountRef,
        now: i64,
    ) -> (r: Option<(i64, i64, i64, bool)>)
        requires
            self.wf(),
        ensures
            match r {
                Some(t) => collection_id >= 1 && spec_account_id(*account) > 0
                    && self.collections@.contains_key(collection_id) && t.0
                    == self.spec_wallet_stats(
                    collection_id,
                    spec_account_id(*account),
                ).checkin_count && t.1 == self.spec_wallet_stats(
                    collection_id,
                    spec_account_id(*account),
                ).last_checkin_at && t.2 == (if self.spec_checkin_program(
                    collection_id,
                ).max_checkins_per_wallet <= 0 {
                    i64::MAX
                } else if self.spec_wallet_stats(
                    collection_id,
                    spec_account_id(*account),
                ).checkin_count >= self.spec_checkin_program(
                    collection_id,
                ).max_checkins_per_wallet {
                    0i64
                } else {
                    (self.spec_checkin_program(collection_id).max_checkins_per_wallet
                        - self.spec_wallet_stats(
                        collection_id,
                        spec_account_id(*account),
                    ).checkin_count) as i64
                }) && t.3 == self.spec_can_checkin_now(
                    collection_id,
                    spec_account_id(*account),
                    now,
                ),
                None => collection_id < 1 || spec_account_id(*account) <= 0
                    || !self.collections@.contains_key(collection_id),
            },
    {
        if collection_id <= 0 {
            return None;
        }
        let account_id = account_id_of(account);
        if account_id <= 0 {
            return None;
        }
        if !self.collection_exists(collection_id) {
            return None;
        }
        let p = self.checkin_program_of(collection_id);
        let stats = self.wallet_stats_of(collection_id, account_id);
        let remaining: i64 = if p.max_checkins_per_wallet <= 0 {
            i64::MAX
        } else if stats.checkin_count >= p.max_checkins_per_wallet {
            0
        } else {
            p.max_checkins_per_wallet - stats.checkin_count
        };
        let can_now = self.can_checkin_now(collection_id, account_id, now);
        Some((stats.checkin_count, stats.last_checkin_at, remaining, can_now))
    }

    /// The read-side replica of `check_in`'s policy gates for an already
    /// resolved account.
    pub(crate) fn can_checkin_now(&self, collection_id: i64, account_id: i64, now: i64) -> (r:
        bool)
        requires
            self.wf(),
        ensures
            r == self.spec_can_checkin_now(collection_id, account_id, now),
    {
        let p = self.checkin_program_of(collection_id);
        if !p.enabled {
            return false;
        }
        let paused: bool = match self.collections.get(collection_id) {
            Some(c) => c.paused,
            None => false,
        };
        if paused {
            return false;
        }
        if !checkin_window_open(p.enabled, p.start_at, p.end_at, now) {
            return false;
        }
        if p.membership_required && self.load_membership_balance(collection_id, account_id) <= 0 {
            return false;
        }
        let stats = self.wallet_stats_of(collection_id, account_id);
        if p.max_checkins_per_wallet > 0 && stats.checkin_count >= p.max_checkins_per_wallet {
            return false;
        }
        if p.interval_seconds > 0 && stats.last_checkin_at > 0 {
            if stats.last_checkin_at > i64::MAX - p.interval_seconds {
                return false;
            }
            if now < stats.last_checkin_at + p.interval_seconds {
                return false;
            }
        }
        true
    }

    /// Whether the account a reference resolves to could check in right
    /// now.
    pub fn can_check_in(&self, collection_id: i64, account: &AccountRef, now: i64) -> (r: bool)
        requires
            self.wf(),
        ensures
            r == (collection_id >= 1 && spec_account_id(*account) > 0
                && self.collections@.contains_key(collection_id) && self.spec_can_checkin_now(
                collection_id,
                spec_account_id(*account),
                now,
            )),
    {
        if collection_id <= 0 {
            return false;
        }
        let account_id = account_id_of(account);
        if account_id <= 0 {
            return false;
        }
        if !self.collection_exists(collection_id) {
            return false;
        }
        self.can_checkin_now(collection_id, account_id, now)
    }

    /// An account's membership standing in a collection: membership
    /// balance, whether it is a member, and the program's
    /// membership-required and soulbound flags.  `None` when the collection
    /// does not exist or the account does not resolve.
    pub fn get_membership_status(&self, collection_id: i64, account: &AccountRef) -> (r: Option<
        (i64, bool, bool, bool),
    >)
        requires
            self.wf(),
        ensures
            match r {
                Some(t) => collection_id >= 1 && spec_account_id(*account) > 0
                    && self.collections@.contains_key(collection_id) && t.0
                    == self.spec_membership(collection_id, spec_account_id(*account)) && t.1 == (
                self.spec_membership(collection_id, spec_account_id(*account)) > 0) && t.2
                    == self.spec_checkin_program(collection_id).membership_required && t.3
                    == self.spec_checkin_program(collection_id).membership_soulbound,
                None => collection_id < 1 || spec_account_id(*account) <= 0
                    || !self.collections@.contains_key(collection_id),
            },
    {
        if collection_id <= 0 {
            return None;
        }
        let account_id = account_id_of(account);
        if account_id <= 0 {
            return None;
        }
        if !self.collection_exists(collection_id) {
            return None;
        }
        let p = self.checkin_program_of(collection_id);
        let balance = self.load_membership_balance(collection_id, account_id);
        Some((balance, balance > 0, p.membership_required, p.membership_soulbound))
    }

    /// The class code of a token; 0 when the token does not exist.
    pub fn get_token_class(&self, token_id: i64) -> (r: i64)
        requires
            self.wf(),
        ensures
            r == (if token_id >= 1 && self.tokens@.contains_key(token_id) {
                self.tokens@[token_id].class
            } else {
                0i64
            }),
    {
        if token_id <= 0 {
            return 0;
        }
        match self.tokens.get(token_id) {
            Some(t) => t.class,
            None => 0,
        }
    }
}

} // verus!

//! The token ledger: minting, burning and transferring, with per-owner and
//! per-collection balance accounting, the global and per-collection token
//! indices, and the total-supply counter.
//!
//! Every entry point validates fully before its first write, so a returned
//! failure sentinel always means the ledger did not change.

use vstd::prelude::*;
use crate::account::{account_id_of, spec_account_id, AccountRef, AccountRefView};
use crate::encoding::{i64_from_le_prefix, spec_le_prefix_i64};
use crate::records::{Collection, Event, Token, TOKEN_CLASS_CHECKIN_PROOF, TOKEN_CLASS_MEMBERSHIP,
    TOKEN_CLASS_STANDARD};
use crate::state::{collection_record_wf, MultiTenantNftPlatformRust};

verus! {

/// `v + 1`, saturating at the numeric ceiling.
pub open spec fn spec_saturating_inc(v: i64) -> i64 {
    if v == i64::MAX {
        i64::MAX
    } else {
        (v + 1) as i64
    }
}

impl MultiTenantNftPlatformRust {
    /// The token id the next mint in a collection allocates:
    /// `collection_id * 1_000_000 + next serial`.
    pub open spec fn spec_next_token_id(self, collection_id: i64) -> int {
        collection_id * 1_000_000 + self.collections@[collection_id].serial + 1
    }

    /// The URI reference a mint records: the caller's when positive, else
    /// the legacy fixed-width integer read of the collection's base-URI row.
    pub open spec fn spec_effective_uri_ref(self, collection_id: i64, token_uri_ref: i64) -> int {
        if token_uri_ref > 0 {
            token_uri_ref as int
        } else {
            spec_le_prefix_i64(self.spec_collection_base_uri(collection_id))
        }
    }

    /// The properties reference a mint records: the caller's when positive,
    /// else the legacy fixed-width integer read of the collection's name row.
    pub open spec fn spec_effective_properties_ref(
        self,
        collection_id: i64,
        properties_ref: i64,
    ) -> int {
        if properties_ref > 0 {
            properties_ref as int
        } else {
            spec_le_prefix_i64(self.spec_collection_name(collection_id))
        }
    }

    /// The token record a successful mint writes.
    pub open spec fn spec_minted_token(
        self,
        collection_id: i64,
        to_id: i64,
        token_uri_ref: i64,
        properties_ref: i64,
        token_class: i64,
        now: i64,
    ) -> Token {
        Token {
            collection_id,
            owner: to_id,
            uri_ref: self.spec_effective_uri_ref(collection_id, token_uri_ref) as i64,
            properties_ref: self.spec_effective_properties_ref(collection_id, properties_ref)
                as i64,
            burned: false,
            minted_at: now,
            class: token_class,
        }
    }

    /// Whether a mint into a collection can go through: the collection
    /// exists and is not paused, the supply cap leaves room, the next serial
    /// stays under the structural bound, the derived token id is fresh and
    /// fits, and no counter is at its numeric ceiling.
    pub open spec fn spec_mint_ok(self, collection_id: i64, to_id: i64, token_class: i64) -> bool {
        &&& collection_id >= 1
        &&& to_id >= 1
        &&& 0 <= token_class <= 2
        &&& self.collections@.contains_key(collection_id)
        &&& !self.collections@[collection_id].paused
        &&& (self.collections@[collection_id].max_supply > 0
            ==> self.collections@[collection_id].minted < self.collections@[collection_id].max_supply)
        &&& self.collections@[collection_id].serial < 999_999
        &&& self.collections@[collection_id].minted < i64::MAX
        &&& collection_id <= (i64::MAX - (self.collections@[collection_id].serial + 1))
            / 1_000_000
        &&& !self.tokens@.contains_key(self.spec_next_token_id(collection_id) as i64)
        &&& self.spec_balance(to_id) < i64::MAX
        &&& self.total_supply < i64::MAX
        &&& self.global_token_counter < i64::MAX
    }

    /// The collection record after one mint: serial and minted count bumped.
    pub open spec fn spec_collection_after_mint(c: Collection) -> Collection {
        Collection { minted: (c.minted + 1) as i64, serial: (c.serial + 1) as i64, ..c }
    }

    /// The state change a successful mint performs, `pre` to `post`.
    pub open spec fn spec_mint_effect(
        pre: Self,
        post: Self,
        collection_id: i64,
        to_id: i64,
        token_uri_ref: i64,
        properties_ref: i64,
        token_class: i64,
        now: i64,
    ) -> bool {
        let tid = pre.spec_next_token_id(collection_id) as i64;
        let s1 = (pre.collections@[collection_id].serial + 1) as i64;
        &&& post.collections@ == pre.collections@.insert(
            collection_id,
            Self::spec_collection_after_mint(pre.collections@[collection_id]),
        )
        &&& post.tokens@ == pre.tokens@.insert(
            tid,
            pre.spec_minted_token(
                collection_id,
                to_id,
                token_uri_ref,
                properties_ref,
                token_class,
                now,
            ),
        )
        &&& post.balances@ == pre.balances@.insert(to_id, (pre.spec_balance(to_id) + 1) as i64)
        &&& post.total_supply == pre.total_supply + 1
        &&& post.global_token_counter == pre.global_token_counter + 1
        &&& post.global_index@ == pre.global_index@.push(tid)
        &&& post.collection_tokens@ == pre.collection_tokens@.insert((collection_id, s1), tid)
        &&& (token_class == TOKEN_CLASS_MEMBERSHIP ==> post.membership_balances@
            == pre.membership_balances@.insert(
            (collection_id, to_id),
            spec_saturating_inc(pre.spec_membership(collection_id, to_id)),
        ))
        &&& (token_class != TOKEN_CLASS_MEMBERSHIP ==> post.membership_balances
            == pre.membership_balances)
        &&& post.events@ == pre.events@.push(
            (Event::Transfer { from: None, to: Some(to_id), amount: 1, token_id: tid }),
        )
        &&& (post == (MultiTenantNftPlatformRust {
            collections: post.collections,
            tokens: post.tokens,
            balances: post.balances,
            membership_balances: post.membership_balances,
            total_supply: post.total_supply,
            global_token_counter: post.global_token_counter,
            global_index: post.global_index,
            collection_tokens: post.collection_tokens,
            events: post.events,
            ..pre
        }))
    }

    /// Mints one token into a collection for an already resolved account.
    /// Returns the new token id, or 0 when a precondition fails, in which
    /// case the ledger is unchanged.  One mint raises the owner's balance
    /// and the total supply by exactly 1, appends the token to both indices
    /// and emits one `Transfer` event from the null party.
    pub fn mint_token_for_account(
        &mut self,
        collection_id: i64,
        to_id: i64,
        token_uri_ref: i64,
        properties_ref: i64,
        token_class: i64,
        now: i64,
    ) -> (r: i64)
        requires
            old(self).wf(),
        ensures
            final(self).wf(),
            !old(self).spec_mint_ok(collection_id, to_id, token_class) ==> r == 0 && *final(self)
                == *old(self),
            old(self).spec_mint_ok(collection_id, to_id, token_class) ==> r as int == old(self).spec_next_token_id(collection_id) && r >= 1
                && MultiTenantNftPlatformRust::spec_mint_effect(
                *old(self),
                *final(self),
                collection_id,
                to_id,
                token_uri_ref,
                properties_ref,
                token_class,
                now,
            ),
    {
        if collection_id <= 0 || to_id <= 0 {
            return 0;
        }
        if token_class < TOKEN_CLASS_STANDARD || token_class > TOKEN_CLASS_CHECKIN_PROOF {
            return 0;
        }
        let c: Collection = match self.collections.get(collection_id) {
            Some(cc) => *cc,
            None => {
                return 0;
            },
        };
        if c.paused {
            return 0;
        }
        if c.max_supply > 0 && c.minted >= c.max_supply {
            return 0;
        }
        if c.serial >= 999_999 {
            return 0;
        }
        if c.minted == i64::MAX {
            return 0;
        }
        let serial_next = c.serial + 1;
        if collection_id > (i64::MAX - serial_next) / 1_000_000 {
            return 0;
        }
        proof {
            assert(collection_id * 1_000_000 + serial_next <= i64::MAX) by (nonlinear_arith)
                requires
                    collection_id >= 1,
                    serial_next >= 1,
                    collection_id <= (i64::MAX - serial_next) / 1_000_000,
            ;
            assert(collection_id * 1_000_000 + serial_next >= 1) by (nonlinear_arith)
                requires
                    collection_id >= 1,
                    serial_next >= 1,
            ;
        }
        let token_id = collection_id * 1_000_000 + serial_next;
        if self.token_exists(token_id) {
            return 0;
        }
        let bal = self.load_balance(to_id);
        if bal == i64::MAX {
            return 0;
        }
        if self.total_supply == i64::MAX {
            return 0;
        }
        if self.global_token_counter == i64::MAX {
            return 0;
        }
        let eff_uri: i64 = if token_uri_ref > 0 {
            token_uri_ref
        } else {
            match self.collection_base_uris.get(collection_id) {
                Some(v) => i64_from_le_prefix(v),
                None => 0,
            }
        };
        let eff_props: i64 = if properties_ref > 0 {
            properties_ref
        } else {
            match self.collection_names.get(collection_id) {
                Some(v) => i64_from_le_prefix(v),
                None => 0,
            }
        };
        self.collections.insert(
            collection_id,
            Collection { minted: c.minted + 1, serial: serial_next, ..c },
        );
        self.tokens.insert(
            token_id,
            Token {
                collection_id,
                owner: to_id,
                uri_ref: eff_uri,
                properties_ref: eff_props,
                burned: false,
                minted_at: now,
                class: token_class,
            },
        );
        self.balances.insert(to_id, bal + 1);
        self.total_supply = self.total_supply + 1;
        if token_class == TOKEN_CLASS_MEMBERSHIP {
            let cur = self.load_membership_balance(collection_id, to_id);
            let next: i64 = if cur == i64::MAX {
                i64::MAX
            } else {
                cur + 1
            };
            self.membership_balances.insert(collection_id, to_id, next);
        }
        self.global_token_counter = self.global_token_counter + 1;
        self.global_index.push(token_id);
        self.collection_tokens.insert(collection_id, serial_next, token_id);
        self.events.push(
            Event::Transfer { from: None, to: Some(to_id), amount: 1, token_id },
        );
        proof {
            assert forall|cc: i64| #[trigger] self.collections@.contains_key(cc) implies 1 <= cc
                <= self.collection_counter && collection_record_wf(self.collections@[cc]) by {
                if cc != collection_id {
                    assert(old(self).collections@.contains_key(cc));
                }
            }
            assert forall|t: i64| #[trigger] self.tokens@.contains_key(t) implies t >= 1
                && self.tokens@[t].collection_id >= 1 && self.collections@.contains_key(
                self.tokens@[t].collection_id,
            ) && self.tokens@[t].owner >= 1 && 0 <= self.tokens@[t].class <= 2 by {
                if t != token_id {
                    assert(old(self).tokens@.contains_key(t));
                    assert(old(self).collections@.contains_key(old(self).tokens@[t].collection_id));
                }
            }
            assert forall|a: i64| #[trigger] self.balances@.contains_key(a) implies
                self.balances@[a] >= 0 by {
                if a != to_id {
                    assert(old(self).balances@.contains_key(a));
                }
            }
            assert forall|k: (i64, i64)|
                #[trigger] self.membership_balances@.contains_key(k) implies self
                .membership_balances@[k] >= 0 by {
                if k != (collection_id, to_id) {
                    assert(old(self).membership_balances@.contains_key(k));
                }
            }
            assert forall|k: (i64, i64)|
                #[trigger] self.collection_tokens@.contains_key(k) implies
                self.collection_tokens@[k] >= 1 by {
                if k != (collection_id, serial_next) {
                    assert(old(self).collection_tokens@.contains_key(k));
                }
            }
        }
        token_id
    }

    /// Authorization gates of the public mint entry point: both references
    /// resolve, the witness oracle confirmed the operator's address, and the
    /// operator may manage the collection.
    pub open spec fn spec_mint_auth_ok(
        self,
        operator: AccountRef,
        oracle_ok: bool,
        collection_id: i64,
        to: AccountRef,
    ) -> bool {
        &&& spec_account_id(operator) > 0
        &&& spec_account_id(to) > 0
        &&& collection_id >= 1
        &&& self.spec_witness_target(operator@) is Some
        &&& oracle_ok
        &&& self.collections@.contains_key(collection_id)
        &&& self.spec_can_manage(collection_id, spec_account_id(operator))
    }

    /// Mints one membership-class token.  Only the collection's owner or an
    /// operator may mint; the caller's witness must confirm the operator's
    /// address (`oracle_ok` is the oracle's answer for the address
    /// `witness_target` names).  Returns the new token id, or 0 with the
    /// ledger unchanged.
    pub fn mint(
        &mut self,
        operator: AccountRef,
        oracle_ok: bool,
        collection_id: i64,
        to: AccountRef,
        token_uri_ref: i64,
        properties_ref: i64,
        now: i64,
    ) -> (r: i64)
        requires
            old(self).wf(),
        ensures
            final(self).wf(),
            !(old(self).spec_mint_auth_ok(operator, oracle_ok, collection_id, to) && old(self).spec_mint_ok(collection_id, spec_account_id(to), TOKEN_CLASS_MEMBERSHIP)) ==> r == 0
                && *final(self) == *old(self),
            (old(self).spec_mint_auth_ok(operator, oracle_ok, collection_id, to) && old(self).spec_mint_ok(collection_id, spec_account_id(to), TOKEN_CLASS_MEMBERSHIP)) ==> r
                as int == old(self).spec_next_token_id(collection_id)
                && MultiTenantNftPlatformRust::spec_mint_effect(
                (MultiTenantNftPlatformRust {
                    account_addresses: final(self).account_addresses,
                    ..(*old(self))
                }),
                *final(self),
                collection_id,
                spec_account_id(to),
                token_uri_ref,
                properties_ref,
                TOKEN_CLASS_MEMBERSHIP,
                now,
            ) && final(self).account_addresses@ == Self::spec_record_account(
                Self::spec_record_account(old(self).account_addresses@, operator),
                to,
            ),
    {
        let operator_id = account_id_of(&operator);
        let to_id = account_id_of(&to);
        if operator_id <= 0 || collection_id <= 0 || to_id <= 0 {
            return 0;
        }
        if !self.check_witness_for_account_ref(&operator, oracle_ok) {
            return 0;
        }
        if !self.collection_exists(collection_id) {
            return 0;
        }
        if !self.can_manage_collection(collection_id, operator_id) {
            return 0;
        }
        let r = self.mint_token_for_account(
            collection_id,
            to_id,
            token_uri_ref,
            properties_ref,
            TOKEN_CLASS_MEMBERSHIP,
            now,
        );
        if r <= 0 {
            return 0;
        }
        self.record_account(operator);
        self.record_account(to);
        r
    }

    /// Success condition of a burn: the operator resolves and is confirmed
    /// by the witness oracle, the token exists and is not yet burned, and
    /// the operator is the token's owner or may manage its collection.
    pub open spec fn spec_burn_ok(self, operator: AccountRef, oracle_ok: bool, token_id: i64) -> bool {
        &&& spec_account_id(operator) > 0
        &&& token_id >= 1
        &&& self.spec_witness_target(operator@) is Some
        &&& oracle_ok
        &&& self.tokens@.contains_key(token_id)
        &&& !self.tokens@[token_id].burned
        &&& (spec_account_id(operator) == self.tokens@[token_id].owner || self.spec_can_manage(
            self.tokens@[token_id].collection_id,
            spec_account_id(operator),
        ))
    }

    /// The state change a successful burn performs, `pre` to `post`: the
    /// tombstone flag is set, the owner's balance and the total supply drop
    /// by 1 each (floored at 0, in which case no row is written), the
    /// membership balance follows for membership-class tokens, and one
    /// `Transfer` event to the null party is emitted.  The serial counter,
    /// the minted count and both indices keep the token's slot forever.
    pub open spec fn spec_burn_effect(pre: Self, post: Self, token_id: i64) -> bool {
        let t = pre.tokens@[token_id];
        let ob = pre.spec_balance(t.owner);
        let mb = pre.spec_membership(t.collection_id, t.owner);
        &&& post.tokens@ == pre.tokens@.insert(token_id, (Token { burned: true, ..t }))
        &&& (ob > 0 ==> post.balances@ == pre.balances@.insert(t.owner, (ob - 1) as i64))
        &&& (ob <= 0 ==> post.balances@ == pre.balances@)
        &&& post.total_supply == (if pre.total_supply > 0 {
            pre.total_supply - 1
        } else {
            pre.total_supply as int
        })
        &&& (t.class == TOKEN_CLASS_MEMBERSHIP ==> post.membership_balances@
            == pre.membership_balances@.insert(
            (t.collection_id, t.owner),
            if mb > 1 {
                (mb - 1) as i64
            } else {
                0
            },
        ))
        &&& (t.class != TOKEN_CLASS_MEMBERSHIP ==> post.membership_balances@
            == pre.membership_balances@)
        &&& post.events@ == pre.events@.push(
            (Event::Transfer { from: Some(t.owner), to: None, amount: 1, token_id }),
        )
        &&& (post == (MultiTenantNftPlatformRust {
            tokens: post.tokens,
            balances: post.balances,
            membership_balances: post.membership_balances,
            total_supply: post.total_supply,
            events: post.events,
            ..pre
        }))
    }

    /// Burns a token: sets its tombstone flag and releases its balance.
    /// Authorized for the token's owner or anyone who may manage its
    /// collection.  Returns `false` with the ledger unchanged when a gate
    /// fails.
    pub fn burn(&mut self, operator: AccountRef, oracle_ok: bool, token_id: i64) -> (r: bool)
        requires
            old(self).wf(),
        ensures
            final(self).wf(),
            !old(self).spec_burn_ok(operator, oracle_ok, token_id) ==> r == false && *final(self)
                == *old(self),
            old(self).spec_burn_ok(operator, oracle_ok, token_id) ==> r == true
                && MultiTenantNftPlatformRust::spec_burn_effect(
                (MultiTenantNftPlatformRust {
                    account_addresses: final(self).account_addresses,
                    ..(*old(self))
                }),
                *final(self),
                token_id,
            ) && final(self).account_addresses@ == Self::spec_record_account(
                old(self).account_addresses@,
                operator,
            ),
    {
        let operator_id = account_id_of(&operator);
        if operator_id <= 0 || token_id <= 0 {
            return false;
        }
        if !self.check_witness_for_account_ref(&operator, oracle_ok) {
            return false;
        }
        let t: Token = match self.tokens.get(token_id) {
            Some(tt) => *tt,
            None => {
                return false;
            },
        };
        if t.burned {
            return false;
        }
        let authorized = operator_id == t.owner || self.can_manage_collection(
            t.collection_id,
            operator_id,
        );
        if !authorized {
            return false;
        }
        self.tokens.insert(token_id, Token { burned: true, ..t });
        let ob = self.load_balance(t.owner);
        if ob > 0 {
            self.balances.insert(t.owner, ob - 1);
        }
        if self.total_supply > 0 {
            self.total_supply = self.total_supply - 1;
        }
        if t.class == TOKEN_CLASS_MEMBERSHIP {
            let cur = self.load_membership_balance(t.collection_id, t.owner);
            let next: i64 = if cur > 1 {
                cur - 1
            } else {
                0
            };
            self.membership_balances.insert(t.collection_id, t.owner, next);
        }
        self.events.push(Event::Transfer { from: Some(t.owner), to: None, amount: 1, token_id });
        self.record_account(operator);
        proof {
            assert forall|tt: i64| #[trigger] self.tokens@.contains_key(tt) implies tt >= 1
                && self.tokens@[tt].collection_id >= 1 && self.collections@.contains_key(
                self.tokens@[tt].collection_id,
            ) && self.tokens@[tt].owner >= 1 && 0 <= self.tokens@[tt].class <= 2 by {
                if tt != token_id {
                    assert(old(self).tokens@.contains_key(tt));
                }
            }
            assert forall|a: i64| #[trigger] self.balances@.contains_key(a) implies
                self.balances@[a] >= 0 by {
                if a != t.owner {
                    assert(old(self).balances@.contains_key(a));
                }
            }
            assert forall|k: (i64, i64)|
                #[trigger] self.membership_balances@.contains_key(k) implies self
                .membership_balances@[k] >= 0 by {
                if k != (t.collection_id, t.owner) {
                    assert(old(self).membership_balances@.contains_key(k));
                }
            }
        }
        true
    }

    /// Gates of a transfer: the recipient resolves, the token is live, its
    /// collection is neither paused nor non-transferable, membership tokens
    /// are not configured soulbound, and the witness oracle confirmed the
    /// address of the token's **recorded owner** (not the recipient).
    pub open spec fn spec_transfer_gates_ok(
        self,
        to: AccountRef,
        oracle_ok: bool,
        token_id: i64,
    ) -> bool {
        &&& spec_account_id(to) > 0
        &&& token_id >= 1
        &&& self.tokens@.contains_key(token_id)
        &&& !self.tokens@[token_id].burned
        &&& !self.collections@[self.tokens@[token_id].collection_id].paused
        &&& self.collections@[self.tokens@[token_id].collection_id].transferable
        &&& !(self.tokens@[token_id].class == TOKEN_CLASS_MEMBERSHIP && self.spec_checkin_program(
            self.tokens@[token_id].collection_id,
        ).membership_soulbound)
        &&& self.spec_witness_target(AccountRefView::Alias(self.tokens@[token_id].owner)) is Some
        &&& oracle_ok
    }

    /// Success condition of a transfer: the gates hold and, for an actual
    /// move, the recipient's balance is below the numeric ceiling.
    pub open spec fn spec_transfer_ok(self, to: AccountRef, oracle_ok: bool, token_id: i64) -> bool {
        &&& self.spec_transfer_gates_ok(to, oracle_ok, token_id)
        &&& (self.tokens@[token_id].owner != spec_account_id(to) ==> self.spec_balance(
            spec_account_id(to),
        ) < i64::MAX)
    }

    /// The state change an actual move performs, `pre` to `post`: the owner
    /// row is rewritten, the sender's balance drops by 1 (floored at 0, in
    /// which case no row is written), the receiver's rises by 1, membership
    /// balances move along for membership-class tokens, and one `Transfer`
    /// event is emitted.
    pub open spec fn spec_transfer_effect(pre: Self, post: Self, token_id: i64, to_id: i64) -> bool {
        let t = pre.tokens@[token_id];
        let fb = pre.spec_balance(t.owner);
        let tb = pre.spec_balance(to_id);
        let mf = pre.spec_membership(t.collection_id, t.owner);
        let mt = pre.spec_membership(t.collection_id, to_id);
        &&& post.tokens@ == pre.tokens@.insert(token_id, (Token { owner: to_id, ..t }))
        &&& (fb > 0 ==> post.balances@ == pre.balances@.insert(t.owner, (fb - 1) as i64).insert(
            to_id,
            (tb + 1) as i64,
        ))
        &&& (fb <= 0 ==> post.balances@ == pre.balances@.insert(to_id, (tb + 1) as i64))
        &&& (t.class == TOKEN_CLASS_MEMBERSHIP ==> post.membership_balances@
            == pre.membership_balances@.insert(
            (t.collection_id, t.owner),
            if mf > 1 {
                (mf - 1) as i64
            } else {
                0
            },
        ).insert((t.collection_id, to_id), spec_saturating_inc(mt)))
        &&& (t.class != TOKEN_CLASS_MEMBERSHIP ==> post.membership_balances@
            == pre.membership_balances@)
        &&& post.events@ == pre.events@.push(
            (Event::Transfer { from: Some(t.owner), to: Some(to_id), amount: 1, token_id }),
        )
        &&& (post == (MultiTenantNftPlatformRust {
            tokens: post.tokens,
            balances: post.balances,
            membership_balances: post.membership_balances,
            events: post.events,
            ..pre
        }))
    }

    /// Transfers a live token to the account a reference resolves to.
    /// Authorization is against the token's recorded owner: `oracle_ok` must
    /// be the witness oracle's answer for that owner's address.  A
    /// self-transfer succeeds as a pure no-op: no balance changes, no event.
    /// Returns `false` with the ledger unchanged when a gate fails.
    pub fn transfer(&mut self, to: AccountRef, oracle_ok: bool, token_id: i64, _data_ref: i64) -> (r:
        bool)
        requires
            old(self).wf(),
        ensures
            final(self).wf(),
            !old(self).spec_transfer_ok(to, oracle_ok, token_id) ==> r == false && *final(self)
                == *old(self),
            (old(self).spec_transfer_ok(to, oracle_ok, token_id) && old(self).tokens@[
                token_id
            ].owner == spec_account_id(to)) ==> r == true && *final(self) == *old(self),
            (old(self).spec_transfer_ok(to, oracle_ok, token_id) && old(self).tokens@[
                token_id
            ].owner != spec_account_id(to)) ==> r == true
                && MultiTenantNftPlatformRust::spec_transfer_effect(
                (MultiTenantNftPlatformRust {
                    account_addresses: final(self).account_addresses,
                    ..(*old(self))
                }),
                *final(self),
                token_id,
                spec_account_id(to),
            ) && final(self).account_addresses@ == Self::spec_record_account(
                old(self).account_addresses@,
                to,
            ),
    {
        let to_id = account_id_of(&to);
        if to_id <= 0 || token_id <= 0 {
            return false;
        }
        let t: Token = match self.tokens.get(token_id) {
            Some(x) => *x,
            None => {
                return false;
            },
        };
        if t.burned {
            return false;
        }
        proof {
            assert(self.tokens@.contains_key(token_id));
        }
        let (paused, transferable) = match self.collections.get(t.collection_id) {
            Some(c) => (c.paused, c.transferable),
            None => {
                proof {
                    assert(false);
                }
                return false;
            },
        };
        if paused {
            return false;
        }
        if !transferable {
            return false;
        }
        if t.class == TOKEN_CLASS_MEMBERSHIP && self.is_membership_soulbound(t.collection_id) {
            return false;
        }
        let owner_ref = AccountRef::Alias(t.owner);
        if !self.check_witness_for_account_ref(&owner_ref, oracle_ok) {
            return false;
        }
        if t.owner == to_id {
            return true;
        }
        let fb = self.load_balance(t.owner);
        let tb = self.load_balance(to_id);
        if tb == i64::MAX {
            return false;
        }
        if fb > 0 {
            self.balances.insert(t.owner, fb - 1);
        }
        self.balances.insert(to_id, tb + 1);
        self.tokens.insert(token_id, Token { owner: to_id, ..t });
        if t.class == TOKEN_CLASS_MEMBERSHIP {
            let mf = self.load_membership_balance(t.collection_id, t.owner);
            let nf: i64 = if mf > 1 {
                mf - 1
            } else {
                0
            };
            self.membership_balances.insert(t.collection_id, t.owner, nf);
            let mt = self.load_membership_balance(t.collection_id, to_id);
            let nt: i64 = if mt == i64::MAX {
                i64::MAX
            } else {
                mt + 1
            };
            self.membership_balances.insert(t.collection_id, to_id, nt);
        }
        self.events.push(
            Event::Transfer { from: Some(t.owner), to: Some(to_id), amount: 1, token_id },
        );
        self.record_account(to);
        proof {
            assert forall|tt: i64| #[trigger] self.tokens@.contains_key(tt) implies tt >= 1
                && self.tokens@[tt].collection_id >= 1 && self.collections@.contains_key(
                self.tokens@[tt].collection_id,
            ) && self.tokens@[tt].owner >= 1 && 0 <= self.tokens@[tt].class <= 2 by {
                if tt != token_id {
                    assert(old(self).tokens@.contains_key(tt));
                }
            }
            assert forall|a: i64| #[trigger] self.balances@.contains_key(a) implies
                self.balances@[a] >= 0 by {
                if a != t.owner && a != to_id {
                    assert(old(self).balances@.contains_key(a));
                }
            }
            assert forall|k: (i64, i64)|
                #[trigger] self.membership_balances@.contains_key(k) implies self
                .membership_balances@[k] >= 0 by {
                if k != (t.collection_id, t.owner) && k != (t.collection_id, to_id) {
                    assert(old(self).membership_balances@.contains_key(k));
                }
            }
        }
        true
    }
}

} // verus!

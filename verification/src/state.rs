//! The ledger state: one value holding every record family, the monotonic
//! counters and the outbound event log, together with its well-formedness
//! invariant and the shared read/write helpers every engine builds on.
//!
//! Each entry point executes as one uninterrupted unit of work: it validates
//! fully, then writes, so a failure sentinel (0 or `false`) always means no
//! state changed.  The host collaborators stay outside: the witness oracle's
//! answer and the current timestamp come in as plain values, and events go
//! out as an append-only log.

use vstd::prelude::*;
use crate::account::{
    account_id_of, hash160_bytes_from_ref, spec_account_id, spec_hash160_from_ref, zero_bytes,
    AccountRef, AccountRefView,
};
use crate::records::{CheckInProgram, Collection, DropConfig, Event, Token, WalletStats};
use crate::store::{IntMap, PairMap};

verus! {

/// The multi-tenant token ledger.
pub struct MultiTenantNftPlatformRust {
    /// Monotonic collection id allocator; ids start at 1.
    pub collection_counter: i64,
    /// Number of positions in the global token index; equals
    /// `global_index.len()`.
    pub global_token_counter: i64,
    /// Count of live (unburned) tokens, floored at 0.
    pub total_supply: i64,
    /// Collection records (numeric and flag rows) by collection id.
    pub collections: IntMap<Collection>,
    /// Collection name rows by collection id, 1 to 80 bytes of UTF-8.
    pub collection_names: IntMap<Vec<u8>>,
    /// Collection symbol rows by collection id, 1 to 12 bytes of UTF-8.
    pub collection_symbols: IntMap<Vec<u8>>,
    /// Collection description rows by collection id, at most 512 bytes.
    pub collection_descriptions: IntMap<Vec<u8>>,
    /// Collection base-URI rows by collection id, 1 to 512 bytes of UTF-8.
    pub collection_base_uris: IntMap<Vec<u8>>,
    /// Token records by token id.
    pub tokens: IntMap<Token>,
    /// Live-token balance by owner account id.
    pub balances: IntMap<i64>,
    /// Membership-class balance by (collection id, account id).
    pub membership_balances: PairMap<i64>,
    /// Operator grants by (collection id, account id).
    pub operators: PairMap<bool>,
    /// Dedicated collection by owner account id.
    pub owner_collections: IntMap<i64>,
    /// Reverse mapping from account id to the 20 address bytes it folded
    /// from.
    pub account_addresses: IntMap<Vec<u8>>,
    /// Drop configurations by collection id.
    pub drop_configs: IntMap<DropConfig>,
    /// Whitelist allowances by (collection id, account id).
    pub drop_whitelist: PairMap<i64>,
    /// Claims made by (collection id, account id).
    pub drop_claimed: PairMap<i64>,
    /// Check-in program configurations by collection id.
    pub checkin_programs: IntMap<CheckInProgram>,
    /// Check-in statistics by (collection id, account id).
    pub checkin_wallets: PairMap<WalletStats>,
    /// Token id by (collection id, serial).
    pub collection_tokens: PairMap<i64>,
    /// The global append-only token index; position `i` (1-based) holds
    /// `global_index[i - 1]`.
    pub global_index: Vec<i64>,
    /// The outbound event log, in emission order.
    pub events: Vec<Event>,
}

impl Default for MultiTenantNftPlatformRust {
    /// An empty ledger.
    fn default() -> (r: Self)
        ensures
            r.wf(),
            r.collection_counter == 0,
            r.global_token_counter == 0,
            r.total_supply == 0,
            r.events@ == Seq::<Event>::empty(),
    {
        MultiTenantNftPlatformRust::new()
    }
}

/// A collection record's own invariant.
pub open spec fn collection_record_wf(c: Collection) -> bool {
    &&& c.owner >= 1
    &&& c.max_supply >= 0
    &&& 0 <= c.royalty_bps <= 10000
    &&& 0 <= c.minted
    &&& 0 <= c.serial <= 999_999
    &&& c.max_supply > 0 ==> c.minted <= c.max_supply
}

impl MultiTenantNftPlatformRust {
    /// The row stores are well formed.
    pub open spec fn stores_wf(self) -> bool {
        &&& self.collections.wf()
        &&& self.collection_names.wf()
        &&& self.collection_symbols.wf()
        &&& self.collection_descriptions.wf()
        &&& self.collection_base_uris.wf()
        &&& self.tokens.wf()
        &&& self.balances.wf()
        &&& self.membership_balances.wf()
        &&& self.operators.wf()
        &&& self.owner_collections.wf()
        &&& self.account_addresses.wf()
        &&& self.drop_configs.wf()
        &&& self.drop_whitelist.wf()
        &&& self.drop_claimed.wf()
        &&& self.checkin_programs.wf()
        &&& self.checkin_wallets.wf()
        &&& self.collection_tokens.wf()
    }

    /// Counters are non-negative and the token counter matches the index.
    pub open spec fn counters_wf(self) -> bool {
        &&& 0 <= self.collection_counter
        &&& 0 <= self.total_supply
        &&& self.global_token_counter as int == self.global_index@.len()
    }

    /// Every collection id was allocated by the counter and its record keeps
    /// the numeric bounds, the supply cap and the structural serial bound.
    pub open spec fn collections_wf(self) -> bool {
        forall|c: i64|
            #[trigger] self.collections@.contains_key(c) ==> 1 <= c <= self.collection_counter
                && collection_record_wf(self.collections@[c])
    }

    /// Every token belongs to an existing collection, has a positive owner
    /// and a valid class code.
    pub open spec fn tokens_wf(self) -> bool {
        forall|t: i64|
            #[trigger] self.tokens@.contains_key(t) ==> t >= 1 && self.tokens@[t].collection_id
                >= 1 && self.collections@.contains_key(self.tokens@[t].collection_id)
                && self.tokens@[t].owner >= 1 && 0 <= self.tokens@[t].class <= 2
    }

    /// Balances and membership balances are never negative.
    pub open spec fn balances_wf(self) -> bool {
        &&& forall|a: i64| #[trigger] self.balances@.contains_key(a) ==> self.balances@[a] >= 0
        &&& forall|k: (i64, i64)|
            #[trigger] self.membership_balances@.contains_key(k) ==> self.membership_balances@[k]
                >= 0
    }

    /// Drop state keeps its numeric bounds.
    pub open spec fn drops_wf(self) -> bool {
        &&& forall|c: i64|
            #[trigger] self.drop_configs@.contains_key(c) ==> self.drop_configs@[c].start_at
                >= 0 && self.drop_configs@[c].end_at >= 0
                && self.drop_configs@[c].per_wallet_limit >= 0
        &&& forall|k: (i64, i64)|
            #[trigger] self.drop_whitelist@.contains_key(k) ==> self.drop_whitelist@[k] >= 0
        &&& forall|k: (i64, i64)|
            #[trigger] self.drop_claimed@.contains_key(k) ==> self.drop_claimed@[k] >= 0
    }

    /// Check-in state keeps its numeric bounds.
    pub open spec fn checkins_wf(self) -> bool {
        &&& forall|c: i64|
            #[trigger] self.checkin_programs@.contains_key(c) ==> self.checkin_programs@[c].start_at
                >= 0 && self.checkin_programs@[c].end_at >= 0
                && self.checkin_programs@[c].interval_seconds >= 0
                && self.checkin_programs@[c].max_checkins_per_wallet >= 0
        &&& forall|k: (i64, i64)|
            #[trigger] self.checkin_wallets@.contains_key(k) ==> self.checkin_wallets@[
                k
            ].checkin_count >= 0
    }

    /// Owner bindings and serial indices point at positive identifiers.
    pub open spec fn bindings_wf(self) -> bool {
        &&& forall|o: i64|
            #[trigger] self.owner_collections@.contains_key(o) ==> self.owner_collections@[o] >= 1
        &&& forall|k: (i64, i64)|
            #[trigger] self.collection_tokens@.contains_key(k) ==> self.collection_tokens@[k] >= 1
    }

    /// Every position of the global token index holds an existing token.
    pub open spec fn index_wf(self) -> bool {
        forall|i: int|
            0 <= i < self.global_index@.len() ==> self.tokens@.contains_key(
                #[trigger] self.global_index@[i],
            )
    }

    /// The ledger invariant every entry point preserves.
    pub open spec fn wf(self) -> bool {
        &&& self.stores_wf()
        &&& self.counters_wf()
        &&& self.collections_wf()
        &&& self.tokens_wf()
        &&& self.balances_wf()
        &&& self.drops_wf()
        &&& self.checkins_wf()
        &&& self.bindings_wf()
        &&& self.index_wf()
    }

    /// An empty ledger.
    pub fn new() -> (r: Self)
        ensures
            r.wf(),
            r.collection_counter == 0,
            r.global_token_counter == 0,
            r.total_supply == 0,
            r.collections@ == Map::<i64, Collection>::empty(),
            r.collection_names@ == Map::<i64, Vec<u8>>::empty(),
            r.collection_symbols@ == Map::<i64, Vec<u8>>::empty(),
            r.collection_descriptions@ == Map::<i64, Vec<u8>>::empty(),
            r.collection_base_uris@ == Map::<i64, Vec<u8>>::empty(),
            r.tokens@ == Map::<i64, Token>::empty(),
            r.balances@ == Map::<i64, i64>::empty(),
            r.membership_balances@ == Map::<(i64, i64), i64>::empty(),
            r.operators@ == Map::<(i64, i64), bool>::empty(),
            r.owner_collections@ == Map::<i64, i64>::empty(),
            r.account_addresses@ == Map::<i64, Vec<u8>>::empty(),
            r.drop_configs@ == Map::<i64, DropConfig>::empty(),
            r.drop_whitelist@ == Map::<(i64, i64), i64>::empty(),
            r.drop_claimed@ == Map::<(i64, i64), i64>::empty(),
            r.checkin_programs@ == Map::<i64, CheckInProgram>::empty(),
            r.checkin_wallets@ == Map::<(i64, i64), WalletStats>::empty(),
            r.collection_tokens@ == Map::<(i64, i64), i64>::empty(),
            r.global_index@ == Seq::<i64>::empty(),
            r.events@ == Seq::<Event>::empty(),
    {
        MultiTenantNftPlatformRust {
            collection_counter: 0,
            global_token_counter: 0,
            total_supply: 0,
            collections: IntMap::new(),
            collection_names: IntMap::new(),
            collection_symbols: IntMap::new(),
            collection_descriptions: IntMap::new(),
            collection_base_uris: IntMap::new(),
            tokens: IntMap::new(),
            balances: IntMap::new(),
            membership_balances: PairMap::new(),
            operators: PairMap::new(),
            owner_collections: IntMap::new(),
            account_addresses: IntMap::new(),
            drop_configs: IntMap::new(),
            drop_whitelist: PairMap::new(),
            drop_claimed: PairMap::new(),
            checkin_programs: IntMap::new(),
            checkin_wallets: PairMap::new(),
            collection_tokens: PairMap::new(),
            global_index: Vec::new(),
            events: Vec::new(),
        }
    }

    /// The owner account recorded for a collection; 0 when the collection
    /// does not exist.
    pub open spec fn spec_collection_owner(self, collection_id: i64) -> i64 {
        if self.collections@.contains_key(collection_id) {
            self.collections@[collection_id].owner
        } else {
            0
        }
    }

    /// The name row of a collection; absent rows read empty.
    pub open spec fn spec_collection_name(self, collection_id: i64) -> Seq<u8> {
        if self.collection_names@.contains_key(collection_id) {
            self.collection_names@[collection_id]@
        } else {
            Seq::empty()
        }
    }

    /// The symbol row of a collection; absent rows read empty.
    pub open spec fn spec_collection_symbol(self, collection_id: i64) -> Seq<u8> {
        if self.collection_symbols@.contains_key(collection_id) {
            self.collection_symbols@[collection_id]@
        } else {
            Seq::empty()
        }
    }

    /// The description row of a collection; absent rows read empty.
    pub open spec fn spec_collection_description(self, collection_id: i64) -> Seq<u8> {
        if self.collection_descriptions@.contains_key(collection_id) {
            self.collection_descriptions@[collection_id]@
        } else {
            Seq::empty()
        }
    }

    /// The base-URI row of a collection; absent rows read empty.
    pub open spec fn spec_collection_base_uri(self, collection_id: i64) -> Seq<u8> {
        if self.collection_base_uris@.contains_key(collection_id) {
            self.collection_base_uris@[collection_id]@
        } else {
            Seq::empty()
        }
    }

    /// The live-token balance row of an account; absent rows read 0.
    pub open spec fn spec_balance(self, owner: i64) -> i64 {
        if self.balances@.contains_key(owner) {
            self.balances@[owner]
        } else {
            0
        }
    }

    /// The membership balance row; absent rows read 0.
    pub open spec fn spec_membership(self, collection_id: i64, account: i64) -> i64 {
        if self.membership_balances@.contains_key((collection_id, account)) {
            self.membership_balances@[(collection_id, account)]
        } else {
            0
        }
    }

    /// The operator grant row; absent rows read `false`.
    pub open spec fn spec_operator(self, collection_id: i64, account: i64) -> bool {
        if self.operators@.contains_key((collection_id, account)) {
            self.operators@[(collection_id, account)]
        } else {
            false
        }
    }

    /// The dedicated collection bound to an owner; absent rows read 0.
    pub open spec fn spec_owner_collection(self, owner: i64) -> i64 {
        if self.owner_collections@.contains_key(owner) {
            self.owner_collections@[owner]
        } else {
            0
        }
    }

    /// The drop configuration of a collection; absent rows read as disabled.
    pub open spec fn spec_drop_config(self, collection_id: i64) -> DropConfig {
        if self.drop_configs@.contains_key(collection_id) {
            self.drop_configs@[collection_id]
        } else {
            DropConfig::spec_default()
        }
    }

    /// The whitelist allowance row; absent rows read 0.
    pub open spec fn spec_allowance(self, collection_id: i64, account: i64) -> i64 {
        if self.drop_whitelist@.contains_key((collection_id, account)) {
            self.drop_whitelist@[(collection_id, account)]
        } else {
            0
        }
    }

    /// The claimed-count row; absent rows read 0.
    pub open spec fn spec_claimed(self, collection_id: i64, account: i64) -> i64 {
        if self.drop_claimed@.contains_key((collection_id, account)) {
            self.drop_claimed@[(collection_id, account)]
        } else {
            0
        }
    }

    /// The check-in program of a collection; absent rows read as disabled.
    pub open spec fn spec_checkin_program(self, collection_id: i64) -> CheckInProgram {
        if self.checkin_programs@.contains_key(collection_id) {
            self.checkin_programs@[collection_id]
        } else {
            CheckInProgram::spec_default()
        }
    }

    /// The check-in statistics row; absent rows read all-zero.
    pub open spec fn spec_wallet_stats(self, collection_id: i64, account: i64) -> WalletStats {
        if self.checkin_wallets@.contains_key((collection_id, account)) {
            self.checkin_wallets@[(collection_id, account)]
        } else {
            WalletStats::spec_default()
        }
    }

    /// The token bound to a collection serial; absent rows read 0.
    pub open spec fn spec_collection_token(self, collection_id: i64, serial: i64) -> i64 {
        if self.collection_tokens@.contains_key((collection_id, serial)) {
            self.collection_tokens@[(collection_id, serial)]
        } else {
            0
        }
    }

    /// Whether an actor may manage a collection: it is the recorded owner or
    /// holds an active operator grant.
    pub open spec fn spec_can_manage(self, collection_id: i64, actor: i64) -> bool {
        self.spec_collection_owner(collection_id) == actor || self.spec_operator(
            collection_id,
            actor,
        )
    }

    /// The 20 address bytes an account id renders as: the stored reverse
    /// mapping when one of the right width exists, else the bytes re-derived
    /// from the id's own encoding; ids without identity give the zero
    /// address.
    pub open spec fn spec_address_of(self, account_id: i64) -> Seq<u8> {
        if account_id <= 0 {
            zero_bytes(20)
        } else if self.account_addresses@.contains_key(account_id)
            && self.account_addresses@[account_id]@.len() == 20 {
            self.account_addresses@[account_id]@
        } else {
            spec_hash160_from_ref(account_id)
        }
    }

    /// The reverse-mapping store after recording a resolved reference: an
    /// address reference with identity files its bytes under its id, all
    /// other references leave the store unchanged.
    pub open spec fn spec_record_account(m: Map<i64, Vec<u8>>, r: AccountRef) -> Map<
        i64,
        Vec<u8>,
    > {
        match r {
            AccountRef::Alias(_) => m,
            AccountRef::Address(b) => if spec_account_id(r) > 0 {
                m.insert(spec_account_id(r), b)
            } else {
                m
            },
        }
    }

    /// Whether a collection record exists.
    pub fn collection_exists(&self, collection_id: i64) -> (r: bool)
        requires
            self.wf(),
        ensures
            r == self.collections@.contains_key(collection_id),
    {
        self.collections.contains(collection_id)
    }

    /// Whether a token record exists (burned tokens included).
    pub fn token_exists(&self, token_id: i64) -> (r: bool)
        requires
            self.wf(),
        ensures
            r == self.tokens@.contains_key(token_id),
    {
        self.tokens.contains(token_id)
    }

    /// Reads an account's live-token balance.
    pub fn load_balance(&self, owner: i64) -> (r: i64)
        requires
            self.wf(),
        ensures
            r == self.spec_balance(owner),
    {
        match self.balances.get(owner) {
            Some(v) => *v,
            None => 0,
        }
    }

    /// Writes an account's live-token balance row.
    pub fn save_balance(&mut self, owner: i64, value: i64)
        requires
            old(self).wf(),
            value >= 0,
        ensures
            final(self).wf(),
            final(self).balances@ == old(self).balances@.insert(owner, value),
            (*final(self) == (MultiTenantNftPlatformRust {
                balances: final(self).balances,
                ..(*old(self))
            })),
    {
        self.balances.insert(owner, value);
        proof {
            assert forall|a: i64|
                self.balances@.contains_key(a) implies #[trigger] self.balances@[a] >= 0 by {
                if a != owner {
                    assert(old(self).balances@.contains_key(a));
                    assert(old(self).balances@[a] >= 0);
                }
            }
        }
    }

    /// Reads a membership balance.
    pub fn load_membership_balance(&self, collection_id: i64, owner: i64) -> (r: i64)
        requires
            self.wf(),
        ensures
            r == self.spec_membership(collection_id, owner),
    {
        match self.membership_balances.get(collection_id, owner) {
            Some(v) => *v,
            None => 0,
        }
    }

    /// Writes a membership balance row, flooring negative values at 0.
    pub fn save_membership_balance(&mut self, collection_id: i64, owner: i64, value: i64)
        requires
            old(self).wf(),
        ensures
            final(self).wf(),
            final(self).membership_balances@ == old(self).membership_balances@.insert(
                (collection_id, owner),
                if value > 0 {
                    value
                } else {
                    0
                },
            ),
            (*final(self) == (MultiTenantNftPlatformRust {
                membership_balances: final(self).membership_balances,
                ..(*old(self))
            })),
    {
        let normalized: i64 = if value > 0 {
            value
        } else {
            0
        };
        self.membership_balances.insert(collection_id, owner, normalized);
        proof {
            assert forall|k: (i64, i64)|
                self.membership_balances@.contains_key(k) implies #[trigger] self
                .membership_balances@[k] >= 0 by {
                if k != (collection_id, owner) {
                    assert(old(self).membership_balances@.contains_key(k));
                    assert(old(self).membership_balances@[k] >= 0);
                }
            }
        }
    }

    /// Adds to a membership balance, saturating at the numeric ceiling.
    pub fn add_membership_balance(&mut self, collection_id: i64, owner: i64, delta: i64)
        requires
            old(self).wf(),
            delta >= 0,
        ensures
            final(self).wf(),
            final(self).membership_balances@ == old(self).membership_balances@.insert(
                (collection_id, owner),
                if old(self).spec_membership(collection_id, owner) + delta > i64::MAX {
                    i64::MAX
                } else {
                    (old(self).spec_membership(collection_id, owner) + delta) as i64
                },
            ),
            (*final(self) == (MultiTenantNftPlatformRust {
                membership_balances: final(self).membership_balances,
                ..(*old(self))
            })),
    {
        let current = self.load_membership_balance(collection_id, owner);
        let next: i64 = if current > i64::MAX - delta {
            i64::MAX
        } else {
            current + delta
        };
        self.save_membership_balance(collection_id, owner, next);
    }

    /// Subtracts from a membership balance, flooring at 0.
    pub fn subtract_membership_balance(&mut self, collection_id: i64, owner: i64, delta: i64)
        requires
            old(self).wf(),
            delta >= 0,
        ensures
            final(self).wf(),
            final(self).membership_balances@ == old(self).membership_balances@.insert(
                (collection_id, owner),
                if old(self).spec_membership(collection_id, owner) > delta {
                    (old(self).spec_membership(collection_id, owner) - delta) as i64
                } else {
                    0
                },
            ),
            (*final(self) == (MultiTenantNftPlatformRust {
                membership_balances: final(self).membership_balances,
                ..(*old(self))
            })),
    {
        let current = self.load_membership_balance(collection_id, owner);
        let next: i64 = if current > delta {
            current - delta
        } else {
            0
        };
        self.save_membership_balance(collection_id, owner, next);
    }

    /// Whether the collection's membership tokens are configured soulbound.
    pub fn is_membership_soulbound(&self, collection_id: i64) -> (r: bool)
        requires
            self.wf(),
        ensures
            r == self.spec_checkin_program(collection_id).membership_soulbound,
    {
        match self.checkin_programs.get(collection_id) {
            Some(p) => p.membership_soulbound,
            None => false,
        }
    }

    /// Records the reverse mapping of a resolved address reference.  Entry
    /// points call this on their success path, so that a reported failure
    /// corresponds to zero state change.
    pub fn record_account(&mut self, r: AccountRef)
        requires
            old(self).wf(),
        ensures
            final(self).wf(),
            final(self).account_addresses@ == Self::spec_record_account(
                old(self).account_addresses@,
                r,
            ),
            (*final(self) == (MultiTenantNftPlatformRust {
                account_addresses: final(self).account_addresses,
                ..(*old(self))
            })),
    {
        match r {
            AccountRef::Alias(_) => {
            },
            AccountRef::Address(b) => {
                if b.len() == 20 {
                    let id = crate::account::fold_bytes_to_i64(&b);
                    if id > 0 {
                        self.account_addresses.insert(id, b);
                    }
                }
            },
        }
    }

    /// Resolves an account reference to its canonical id and persists the
    /// reverse mapping for address references with identity.
    pub fn canonical_account_id(&mut self, r: AccountRef) -> (id: i64)
        requires
            old(self).wf(),
        ensures
            final(self).wf(),
            id == spec_account_id(r),
            final(self).account_addresses@ == Self::spec_record_account(
                old(self).account_addresses@,
                r,
            ),
            (*final(self) == (MultiTenantNftPlatformRust {
                account_addresses: final(self).account_addresses,
                ..(*old(self))
            })),
    {
        let id = account_id_of(&r);
        self.record_account(r);
        id
    }

    /// The 20 address bytes an account id renders as.
    pub fn account_hash160(&self, account_id: i64) -> (r: Vec<u8>)
        requires
            self.wf(),
        ensures
            r@ == self.spec_address_of(account_id),
            r@.len() == 20,
    {
        if account_id <= 0 {
            return hash160_bytes_from_ref(account_id);
        }
        match self.account_addresses.get(account_id) {
            Some(v) => {
                if v.len() == 20 {
                    crate::encoding::clone_bytes(v)
                } else {
                    hash160_bytes_from_ref(account_id)
                }
            },
            None => hash160_bytes_from_ref(account_id),
        }
    }

    /// The address the witness oracle must confirm for a reference: the
    /// reference's own bytes for an address reference of the right width,
    /// the stored reverse mapping for an alias; `None` fails closed.
    pub open spec fn spec_witness_target(self, v: AccountRefView) -> Option<Seq<u8>> {
        match v {
            AccountRefView::Address(s) => if s.len() == 20 {
                Some(s)
            } else {
                None
            },
            AccountRefView::Alias(a) => if a <= 0 {
                None
            } else if self.account_addresses@.contains_key(a) && self.account_addresses@[a]@.len()
                == 20 {
                Some(self.account_addresses@[a]@)
            } else {
                None
            },
        }
    }

    /// The address the witness oracle must confirm for a reference, or
    /// `None` when the reference resolves to no address (fail closed).
    pub fn witness_target(&self, r: &AccountRef) -> (t: Option<Vec<u8>>)
        requires
            self.wf(),
        ensures
            match t {
                Some(v) => self.spec_witness_target(r@) == Some(v@),
                None => self.spec_witness_target(r@) is None,
            },
    {
        match r {
            AccountRef::Address(b) => {
                if b.len() == 20 {
                    Some(crate::encoding::clone_bytes(b))
                } else {
                    None
                }
            },
            AccountRef::Alias(a) => {
                if *a <= 0 {
                    return None;
                }
                match self.account_addresses.get(*a) {
                    Some(v) => {
                        if v.len() == 20 {
                            Some(crate::encoding::clone_bytes(v))
                        } else {
                            None
                        }
                    },
                    None => None,
                }
            },
        }
    }

    /// Whether the caller is authorized for a reference: the reference
    /// resolves to an address and the witness oracle confirmed that address.
    /// `oracle_ok` is the oracle's answer for the address `witness_target`
    /// names; resolution ambiguity fails closed.
    pub fn check_witness_for_account_ref(&self, r: &AccountRef, oracle_ok: bool) -> (b: bool)
        requires
            self.wf(),
        ensures
            b == (self.spec_witness_target(r@) is Some && oracle_ok),
    {
        match r {
            AccountRef::Address(bytes) => bytes.len() == 20 && oracle_ok,
            AccountRef::Alias(a) => {
                if *a <= 0 {
                    return false;
                }
                match self.account_addresses.get(*a) {
                    Some(v) => v.len() == 20 && oracle_ok,
                    None => false,
                }
            },
        }
    }

    /// Appends a `Transfer` event; parties are account ids, `None` the null
    /// party of a mint or burn.
    pub fn emit_transfer(&mut self, from: Option<i64>, to: Option<i64>, token_id: i64)
        requires
            old(self).wf(),
        ensures
            final(self).wf(),
            final(self).events@ == old(self).events@.push(
                (Event::Transfer { from, to, amount: 1, token_id }),
            ),
            (*final(self) == (MultiTenantNftPlatformRust {
                events: final(self).events,
                ..(*old(self))
            })),
    {
        self.events.push(Event::Transfer { from, to, amount: 1, token_id });
    }

    /// The `CollectionUpserted` event a collection's current record denotes;
    /// a missing record reads as all-zero, as absent rows do.
    pub open spec fn spec_collection_upserted_event(self, collection_id: i64) -> Event {
        if self.collections@.contains_key(collection_id) {
            let c = self.collections@[collection_id];
            Event::CollectionUpserted {
                collection_id,
                owner: c.owner,
                max_supply: c.max_supply,
                minted: c.minted,
                royalty_bps: c.royalty_bps,
                transferable: c.transferable,
                paused: c.paused,
                created_at: c.created_at,
            }
        } else {
            Event::CollectionUpserted {
                collection_id,
                owner: 0,
                max_supply: 0,
                minted: 0,
                royalty_bps: 0,
                transferable: false,
                paused: false,
                created_at: 0,
            }
        }
    }

    /// Appends a `CollectionUpserted` event echoing the collection's record.
    pub fn emit_collection_upserted(&mut self, collection_id: i64)
        requires
            old(self).wf(),
        ensures
            final(self).wf(),
            final(self).events@ == old(self).events@.push(
                old(self).spec_collection_upserted_event(collection_id),
            ),
            (*final(self) == (MultiTenantNftPlatformRust {
                events: final(self).events,
                ..(*old(self))
            })),
    {
        let ev = match self.collections.get(collection_id) {
            Some(c) => Event::CollectionUpserted {
                collection_id,
                owner: c.owner,
                max_supply: c.max_supply,
                minted: c.minted,
                royalty_bps: c.royalty_bps,
                transferable: c.transferable,
                paused: c.paused,
                created_at: c.created_at,
            },
            None => Event::CollectionUpserted {
                collection_id,
                owner: 0,
                max_supply: 0,
                minted: 0,
                royalty_bps: 0,
                transferable: false,
                paused: false,
                created_at: 0,
            },
        };
        self.events.push(ev);
    }

    /// Appends a `CollectionOperatorUpdated` event.
    pub fn emit_collection_operator_updated(
        &mut self,
        collection_id: i64,
        operator_id: i64,
        enabled: bool,
    )
        requires
            old(self).wf(),
        ensures
            final(self).wf(),
            final(self).events@ == old(self).events@.push(
                (Event::CollectionOperatorUpdated { collection_id, operator: operator_id, enabled
                }),
            ),
            (*final(self) == (MultiTenantNftPlatformRust {
                events: final(self).events,
                ..(*old(self))
            })),
    {
        self.events.push(
            Event::CollectionOperatorUpdated { collection_id, operator: operator_id, enabled },
        );
    }

    /// The `TokenUpserted` event a token's current record denotes; a missing
    /// record reads as all-zero, as absent rows do.
    pub open spec fn spec_token_upserted_event(self, token_id: i64) -> Event {
        if self.tokens@.contains_key(token_id) {
            Event::TokenUpserted { token_id, token: self.tokens@[token_id] }
        } else {
            Event::TokenUpserted {
                token_id,
                token: Token {
                    collection_id: 0,
                    owner: 0,
                    uri_ref: 0,
                    properties_ref: 0,
                    burned: false,
                    minted_at: 0,
                    class: 0,
                },
            }
        }
    }

    /// Appends a `TokenUpserted` event echoing the token's record.
    pub fn emit_token_upserted(&mut self, token_id: i64)
        requires
            old(self).wf(),
        ensures
            final(self).wf(),
            final(self).events@ == old(self).events@.push(
                old(self).spec_token_upserted_event(token_id),
            ),
            (*final(self) == (MultiTenantNftPlatformRust {
                events: final(self).events,
                ..(*old(self))
            })),
    {
        let ev = match self.tokens.get(token_id) {
            Some(t) => Event::TokenUpserted { token_id, token: *t },
            None => Event::TokenUpserted {
                token_id,
                token: Token {
                    collection_id: 0,
                    owner: 0,
                    uri_ref: 0,
                    properties_ref: 0,
                    burned: false,
                    minted_at: 0,
                    class: 0,
                },
            },
        };
        self.events.push(ev);
    }

    /// The ledger's token symbol, as ASCII bytes (`MNFTP`).
    pub fn symbol() -> (r: Vec<u8>)
        ensures
            r@ == seq![0x4du8, 0x4eu8, 0x46u8, 0x54u8, 0x50u8],
    {
        let r: Vec<u8> = vec![0x4du8, 0x4eu8, 0x46u8, 0x54u8, 0x50u8];
        proof {
            assert(r@ =~= seq![0x4du8, 0x4eu8, 0x46u8, 0x54u8, 0x50u8]);
        }
        r
    }

    /// Token amounts are indivisible.
    pub fn decimals() -> (r: i64)
        ensures
            r == 0,
    {
        0
    }

    /// The count of live tokens.
    pub fn total_supply(&self) -> (r: i64)
        ensures
            r == self.total_supply,
    {
        self.total_supply
    }

    /// The live-token balance of the account a reference resolves to; 0 for
    /// references without identity.
    pub fn balance_of(&self, owner: &AccountRef) -> (r: i64)
        requires
            self.wf(),
        ensures
            r == (if spec_account_id(*owner) > 0 {
                self.spec_balance(spec_account_id(*owner))
            } else {
                0
            }),
    {
        let id = account_id_of(owner);
        if id <= 0 {
            return 0;
        }
        self.load_balance(id)
    }

    /// The current owner's address of a live token; `None` for missing or
    /// burned tokens.
    pub fn owner_of(&self, token_id: i64) -> (r: Option<Vec<u8>>)
        requires
            self.wf(),
        ensures
            match r {
                Some(v) => self.tokens@.contains_key(token_id) && !self.tokens@[token_id].burned
                    && v@ == self.spec_address_of(self.tokens@[token_id].owner),
                None => !self.tokens@.contains_key(token_id) || self.tokens@[token_id].burned,
            },
    {
        let owner: i64 = match self.tokens.get(token_id) {
            Some(t) => {
                if t.burned {
                    return None;
                }
                t.owner
            },
            None => {
                return None;
            },
        };
        Some(self.account_hash160(owner))
    }

    /// Whether an actor is the collection's owner or an active operator.
    pub fn can_manage_collection(&self, collection_id: i64, actor: i64) -> (r: bool)
        requires
            self.wf(),
        ensures
            r == self.spec_can_manage(collection_id, actor),
    {
        let owner = match self.collections.get(collection_id) {
            Some(c) => c.owner,
            None => 0,
        };
        if owner == actor {
            return true;
        }
        match self.operators.get(collection_id, actor) {
            Some(b) => *b,
            None => false,
        }
    }
}

} // verus!

//! The collection registry: tenant lifecycle.  Creation, metadata update and
//! operator delegation are owner-only; one owner holds at most one dedicated
//! collection.

use vstd::prelude::*;
use crate::account::{account_id_of, spec_account_id, AccountRef};
use crate::records::{Collection, Event};
use crate::state::{collection_record_wf, MultiTenantNftPlatformRust};

verus! {

impl MultiTenantNftPlatformRust {
    /// Success condition of collection creation: numeric ranges, text
    /// bounds, a resolved and witness-confirmed creator who owns no
    /// dedicated collection yet, and an id counter below its ceiling.
    pub open spec fn spec_create_collection_ok(
        self,
        creator: AccountRef,
        oracle_ok: bool,
        name: Seq<u8>,
        symbol: Seq<u8>,
        description: Seq<u8>,
        base_uri: Seq<u8>,
        max_supply: i64,
        royalty_bps: i64,
    ) -> bool {
        &&& spec_account_id(creator) > 0
        &&& max_supply >= 0
        &&& 0 <= royalty_bps <= 10000
        &&& 1 <= name.len() <= 80
        &&& 1 <= symbol.len() <= 12
        &&& description.len() <= 512
        &&& 1 <= base_uri.len() <= 512
        &&& self.spec_witness_target(creator@) is Some
        &&& oracle_ok
        &&& self.spec_owner_collection(spec_account_id(creator)) <= 0
        &&& self.collection_counter < i64::MAX
    }

    /// The record a successful creation writes.
    pub open spec fn spec_created_collection(
        creator_id: i64,
        max_supply: i64,
        royalty_bps: i64,
        transferable: bool,
        now: i64,
    ) -> Collection {
        Collection {
            owner: creator_id,
            max_supply,
            minted: 0,
            royalty_bps,
            transferable,
            paused: false,
            created_at: now,
            serial: 0,
        }
    }

    /// Creates a collection for the creator: allocates the next collection
    /// id, persists every field with a zero serial counter, binds the owner
    /// to the collection and emits one `CollectionUpserted` event.  Returns
    /// the new collection id, or 0 with the ledger unchanged.
    pub fn create_collection(
        &mut self,
        creator: AccountRef,
        oracle_ok: bool,
        name: Vec<u8>,
        symbol: Vec<u8>,
        description: Vec<u8>,
        base_uri: Vec<u8>,
        max_supply: i64,
        royalty_bps: i64,
        transferable: bool,
        now: i64,
    ) -> (r: i64)
        requires
            old(self).wf(),
        ensures
            final(self).wf(),
            !old(self).spec_create_collection_ok(
                creator,
                oracle_ok,
                name@,
                symbol@,
                description@,
                base_uri@,
                max_supply,
                royalty_bps,
            ) ==> r == 0 && *final(self) == *old(self),
            old(self).spec_create_collection_ok(
                creator,
                oracle_ok,
                name@,
                symbol@,
                description@,
                base_uri@,
                max_supply,
                royalty_bps,
            ) ==> r == old(self).collection_counter + 1 && final(self).collection_counter == r
                && final(self).collections@ == old(self).collections@.insert(
                r,
                Self::spec_created_collection(
                    spec_account_id(creator),
                    max_supply,
                    royalty_bps,
                    transferable,
                    now,
                ),
            ) && final(self).collection_names@ == old(self).collection_names@.insert(r, name)
                && final(self).collection_symbols@ == old(self).collection_symbols@.insert(
                r,
                symbol,
            ) && final(self).collection_descriptions@ == old(self).collection_descriptions@.insert(r, description) && final(self).collection_base_uris@ == old(self).collection_base_uris@.insert(r, base_uri)
                && final(self).owner_collections@ == old(self).owner_collections@.insert(
                spec_account_id(creator),
                r,
            ) && final(self).account_addresses@ == Self::spec_record_account(
                old(self).account_addresses@,
                creator,
            ) && final(self).events@ == old(self).events@.push(
                (Event::CollectionUpserted {
                    collection_id: r,
                    owner: spec_account_id(creator),
                    max_supply,
                    minted: 0,
                    royalty_bps,
                    transferable,
                    paused: false,
                    created_at: now,
                }),
            ) && (*final(self) == (MultiTenantNftPlatformRust {
                collection_counter: final(self).collection_counter,
                collections: final(self).collections,
                collection_names: final(self).collection_names,
                collection_symbols: final(self).collection_symbols,
                collection_descriptions: final(self).collection_descriptions,
                collection_base_uris: final(self).collection_base_uris,
                owner_collections: final(self).owner_collections,
                account_addresses: final(self).account_addresses,
                events: final(self).events,
                ..(*old(self))
            })),
    {
        let creator_id = account_id_of(&creator);
        if creator_id <= 0 || max_supply < 0 || royalty_bps < 0 || royalty_bps > 10000 {
            return 0;
        }
        if name.len() == 0 || name.len() > 80 || symbol.len() == 0 || symbol.len() > 12
            || description.len() > 512 || base_uri.len() == 0 || base_uri.len() > 512 {
            return 0;
        }
        if !self.check_witness_for_account_ref(&creator, oracle_ok) {
            return 0;
        }
        let existing: i64 = match self.owner_collections.get(creator_id) {
            Some(v) => *v,
            None => 0,
        };
        if existing > 0 {
            return 0;
        }
        if self.collection_counter == i64::MAX {
            return 0;
        }
        let collection_id = self.collection_counter + 1;
        self.collection_counter = collection_id;
        self.collections.insert(
            collection_id,
            Collection {
                owner: creator_id,
                max_supply,
                minted: 0,
                royalty_bps,
                transferable,
                paused: false,
                created_at: now,
                serial: 0,
            },
        );
        self.collection_names.insert(collection_id, name);
        self.collection_symbols.insert(collection_id, symbol);
        self.collection_descriptions.insert(collection_id, description);
        self.collection_base_uris.insert(collection_id, base_uri);
        self.owner_collections.insert(creator_id, collection_id);
        self.record_account(creator);
        self.events.push(
            Event::CollectionUpserted {
                collection_id,
                owner: creator_id,
                max_supply,
                minted: 0,
                royalty_bps,
                transferable,
                paused: false,
                created_at: now,
            },
        );
        proof {
            assert forall|cc: i64| #[trigger] self.collections@.contains_key(cc) implies 1 <= cc
                <= self.collection_counter && collection_record_wf(self.collections@[cc]) by {
                if cc != collection_id {
                    assert(old(self).collections@.contains_key(cc));
                }
            }
            assert forall|t: i64| #[trigger] self.tokens@.contains_key(t) implies t >= 1
                && self.tokens@[t].collection_id >= 1 && self.collections@.contains_key(
                self.tokens@[t].collection_id,
            ) && self.tokens@[t].owner >= 1 && 0 <= self.tokens@[t].class <= 2 by {
                assert(old(self).tokens@.contains_key(t));
                assert(old(self).collections@.contains_key(old(self).tokens@[t].collection_id));
            }
            assert forall|o: i64| #[trigger] self.owner_collections@.contains_key(o) implies
                self.owner_collections@[o] >= 1 by {
                if o != creator_id {
                    assert(old(self).owner_collections@.contains_key(o));
                }
            }
        }
        collection_id
    }

    /// Success condition of a collection update: only the recorded owner,
    /// witness-confirmed, within the numeric and text bounds.
    pub open spec fn spec_update_collection_ok(
        self,
        creator: AccountRef,
        oracle_ok: bool,
        collection_id: i64,
        description: Seq<u8>,
        base_uri: Seq<u8>,
        royalty_bps: i64,
    ) -> bool {
        &&& spec_account_id(creator) > 0
        &&& collection_id >= 1
        &&& 0 <= royalty_bps <= 10000
        &&& self.spec_witness_target(creator@) is Some
        &&& oracle_ok
        &&& self.collections@.contains_key(collection_id)
        &&& self.collections@[collection_id].owner == spec_account_id(creator)
        &&& description.len() <= 512
        &&& base_uri.len() <= 512
    }

    /// Updates a collection's mutable fields, all or nothing, and re-emits
    /// the `CollectionUpserted` event.  Only the recorded owner may update.
    /// Returns `false` with the ledger unchanged when a gate fails.
    pub fn update_collection(
        &mut self,
        creator: AccountRef,
        oracle_ok: bool,
        collection_id: i64,
        description: Vec<u8>,
        base_uri: Vec<u8>,
        royalty_bps: i64,
        transferable: bool,
        paused: bool,
    ) -> (r: bool)
        requires
            old(self).wf(),
        ensures
            final(self).wf(),
            !old(self).spec_update_collection_ok(
                creator,
                oracle_ok,
                collection_id,
                description@,
                base_uri@,
                royalty_bps,
            ) ==> r == false && *final(self) == *old(self),
            old(self).spec_update_collection_ok(
                creator,
                oracle_ok,
                collection_id,
                description@,
                base_uri@,
                royalty_bps,
            ) ==> r == true && final(self).collections@ == old(self).collections@.insert(
                collection_id,
                (Collection {
                    royalty_bps,
                    transferable,
                    paused,
                    ..old(self).collections@[collection_id]
                }),
            ) && final(self).collection_descriptions@ == old(self).collection_descriptions@.insert(collection_id, description) && final(self).collection_base_uris@ == old(self).collection_base_uris@.insert(
                collection_id,
                base_uri,
            ) && final(self).account_addresses@ == Self::spec_record_account(
                old(self).account_addresses@,
                creator,
            ) && final(self).events@ == old(self).events@.push(
                final(self).spec_collection_upserted_event(collection_id),
            ) && (*final(self) == (MultiTenantNftPlatformRust {
                collections: final(self).collections,
                collection_descriptions: final(self).collection_descriptions,
                collection_base_uris: final(self).collection_base_uris,
                account_addresses: final(self).account_addresses,
                events: final(self).events,
                ..(*old(self))
            })),
    {
        let creator_id = account_id_of(&creator);
        if creator_id <= 0 || collection_id <= 0 || royalty_bps < 0 || royalty_bps > 10000 {
            return false;
        }
        if !self.check_witness_for_account_ref(&creator, oracle_ok) {
            return false;
        }
        let c: Collection = match self.collections.get(collection_id) {
            Some(cc) => *cc,
            None => {
                return false;
            },
        };
        if c.owner != creator_id {
            return false;
        }
        if description.len() > 512 || base_uri.len() > 512 {
            return false;
        }
        self.collection_descriptions.insert(collection_id, description);
        self.collection_base_uris.insert(collection_id, base_uri);
        self.collections.insert(
            collection_id,
            Collection { royalty_bps, transferable, paused, ..c },
        );
        self.record_account(creator);
        self.emit_collection_upserted(collection_id);
        proof {
            assert forall|cc: i64| #[trigger] self.collections@.contains_key(cc) implies 1 <= cc
                <= self.collection_counter && collection_record_wf(self.collections@[cc]) by {
                if cc != collection_id {
                    assert(old(self).collections@.contains_key(cc));
                }
            }
            assert forall|t: i64| #[trigger] self.tokens@.contains_key(t) implies t >= 1
                && self.tokens@[t].collection_id >= 1 && self.collections@.contains_key(
                self.tokens@[t].collection_id,
            ) && self.tokens@[t].owner >= 1 && 0 <= self.tokens@[t].class <= 2 by {
                assert(old(self).tokens@.contains_key(t));
                assert(old(self).collections@.contains_key(old(self).tokens@[t].collection_id));
            }
        }
        true
    }

    /// Success condition of an operator grant update: only the recorded
    /// owner, witness-confirmed, and both references resolve.
    pub open spec fn spec_set_operator_ok(
        self,
        creator: AccountRef,
        oracle_ok: bool,
        collection_id: i64,
        operator: AccountRef,
    ) -> bool {
        &&& spec_account_id(creator) > 0
        &&& spec_account_id(operator) > 0
        &&& collection_id >= 1
        &&& self.spec_witness_target(creator@) is Some
        &&& oracle_ok
        &&& self.collections@.contains_key(collection_id)
        &&& self.collections@[collection_id].owner == spec_account_id(creator)
    }

    /// Grants or revokes delegated management for an operator account.
    /// Owner-only; the grant covers mint and burn authorization, never
    /// collection-level configuration.  Returns `false` with the ledger
    /// unchanged when a gate fails.
    pub fn set_collection_operator(
        &mut self,
        creator: AccountRef,
        oracle_ok: bool,
        collection_id: i64,
        operator: AccountRef,
        enabled: bool,
    ) -> (r: bool)
        requires
            old(self).wf(),
        ensures
            final(self).wf(),
            !old(self).spec_set_operator_ok(creator, oracle_ok, collection_id, operator) ==> r
                == false && *final(self) == *old(self),
            old(self).spec_set_operator_ok(creator, oracle_ok, collection_id, operator) ==> r
                == true && final(self).operators@ == old(self).operators@.insert(
                (collection_id, spec_account_id(operator)),
                enabled,
            ) && final(self).account_addresses@ == Self::spec_record_account(
                Self::spec_record_account(old(self).account_addresses@, creator),
                operator,
            ) && final(self).events@ == old(self).events@.push(
                (Event::CollectionOperatorUpdated {
                    collection_id,
                    operator: spec_account_id(operator),
                    enabled,
                }),
            ) && (*final(self) == (MultiTenantNftPlatformRust {
                operators: final(self).operators,
                account_addresses: final(self).account_addresses,
                events: final(self).events,
                ..(*old(self))
            })),
    {
        let creator_id = account_id_of(&creator);
        let operator_id = account_id_of(&operator);
        if creator_id <= 0 || operator_id <= 0 || collection_id <= 0 {
            return false;
        }
        if !self.check_witness_for_account_ref(&creator, oracle_ok) {
            return false;
        }
        let c_owner: i64 = match self.collections.get(collection_id) {
            Some(cc) => cc.owner,
            None => {
                return false;
            },
        };
        if c_owner != creator_id {
            return false;
        }
        self.operators.insert(collection_id, operator_id, enabled);
        self.record_account(creator);
        self.record_account(operator);
        self.events.push(
            Event::CollectionOperatorUpdated { collection_id, operator: operator_id, enabled },
        );
        true
    }

    /// Whether an account holds an active operator grant on a collection.
    pub fn is_collection_operator(&self, collection_id: i64, operator: &AccountRef) -> (r: bool)
        requires
            self.wf(),
        ensures
            r == (collection_id >= 1 && spec_account_id(*operator) > 0 && self.spec_operator(
                collection_id,
                spec_account_id(*operator),
            )),
    {
        if collection_id <= 0 {
            return false;
        }
        let operator_id = account_id_of(operator);
        if operator_id <= 0 {
            return false;
        }
        match self.operators.get(collection_id, operator_id) {
            Some(b) => *b,
            None => false,
        }
    }

    /// The dedicated collection bound to the account a reference resolves
    /// to; 0 when there is none.
    pub fn get_owner_dedicated_collection(&self, owner: &AccountRef) -> (r: i64)
        requires
            self.wf(),
        ensures
            r == (if spec_account_id(*owner) > 0 {
                self.spec_owner_collection(spec_account_id(*owner))
            } else {
                0
            }),
    {
        let owner_id = account_id_of(owner);
        if owner_id <= 0 {
            return 0;
        }
        match self.owner_collections.get(owner_id) {
            Some(v) => *v,
            None => 0,
        }
    }

    /// Whether the account a reference resolves to owns a dedicated
    /// collection.
    pub fn has_owner_dedicated_collection(&self, owner: &AccountRef) -> (r: bool)
        requires
            self.wf(),
        ensures
            r == (spec_account_id(*owner) > 0 && self.spec_owner_collection(
                spec_account_id(*owner),
            ) > 0),
    {
        self.get_owner_dedicated_collection(owner) > 0
    }
}

} // verus!

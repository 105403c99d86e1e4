//! The query and enumeration layer: read-only scans over the global token
//! index skipping burned tokens, positional lookups, field-by-code
//! accessors, and royalty reporting.  No query checks authorization.

use vstd::prelude::*;
use crate::account::{account_id_of, spec_account_id, AccountRef};
use crate::encoding::{dec_bytes, hex_encode, spec_dec, spec_hex_digits, spec_le_prefix_i64};
use crate::records::{Collection, Token, TokenProperties};
use crate::state::MultiTenantNftPlatformRust;

verus! {

impl MultiTenantNftPlatformRust {
    /// Whether a token is counted by a filtered enumeration: it exists, is
    /// not burned, and matches the optional owner and collection filters.
    pub open spec fn spec_token_live_match(
        self,
        token_id: i64,
        owner_filter: Option<i64>,
        collection_filter: Option<i64>,
    ) -> bool {
        &&& token_id >= 1
        &&& self.tokens@.contains_key(token_id)
        &&& !self.tokens@[token_id].burned
        &&& (owner_filter matches Some(o) ==> self.tokens@[token_id].owner == o)
        &&& (collection_filter matches Some(c) ==> self.tokens@[token_id].collection_id == c)
    }

    /// The filtered enumeration: every position of the global index whose
    /// token is live and matches the filters, in index order.
    pub open spec fn spec_active_tokens(
        self,
        owner_filter: Option<i64>,
        collection_filter: Option<i64>,
    ) -> Seq<i64> {
        self.global_index@.filter(
            |tid: i64| self.spec_token_live_match(tid, owner_filter, collection_filter),
        )
    }

    /// Scans the global token index from the first position to the last,
    /// collecting the live tokens that match the optional owner and
    /// collection filters.
    pub fn collect_active_tokens(
        &self,
        owner_filter: Option<i64>,
        collection_filter: Option<i64>,
    ) -> (r: Vec<i64>)
        requires
            self.wf(),
        ensures
            r@ == self.spec_active_tokens(owner_filter, collection_filter),
    {
        let ghost pred = |tid: i64|
            self.spec_token_live_match(tid, owner_filter, collection_filter);
        let mut items: Vec<i64> = Vec::new();
        proof {
            reveal(Seq::filter);
            assert(self.global_index@.subrange(0, 0) =~= Seq::<i64>::empty());
            assert(items@ =~= self.global_index@.subrange(0, 0).filter(pred));
        }
        let n = self.global_index.len();
        let mut i: usize = 0;
        while i < n
            invariant
                0 <= i <= n,
                n == self.global_index@.len(),
                self.wf(),
                pred == (|tid: i64|
                    self.spec_token_live_match(tid, owner_filter, collection_filter)),
                items@ == self.global_index@.subrange(0, i as int).filter(pred),
            decreases n - i,
        {
            let token_id = self.global_index[i];
            let ghost items_pre = items@;
            let mut keep = token_id > 0;
            if keep {
                keep = match self.tokens.get(token_id) {
                    Some(t) => {
                        let mut m = !t.burned;
                        match owner_filter {
                            Some(o) => {
                                m = m && t.owner == o;
                            },
                            None => {
                            },
                        }
                        match collection_filter {
                            Some(c) => {
                                m = m && t.collection_id == c;
                            },
                            None => {
                            },
                        }
                        m
                    },
                    None => false,
                };
            }
            if keep {
                items.push(token_id);
            }
            i = i + 1;
            proof {
                reveal(Seq::filter);
                let pre = self.global_index@.subrange(0, i as int - 1);
                let cur = self.global_index@.subrange(0, i as int);
                assert(cur.drop_last() =~= pre);
                assert(cur.last() == token_id);
                assert(keep == pred(token_id));
                if keep {
                    assert(items@ =~= pre.filter(pred).push(token_id));
                } else {
                    assert(items@ =~= pre.filter(pred));
                }
            }
        }
        proof {
            assert(self.global_index@.subrange(0, n as int) =~= self.global_index@);
        }
        items
    }

    /// Every live token, in global index order.
    pub fn tokens(&self) -> (r: Vec<i64>)
        requires
            self.wf(),
        ensures
            r@ == self.spec_active_tokens(None, None),
    {
        self.collect_active_tokens(None, None)
    }

    /// The token id at a 1-based position of the raw global index; 0 when
    /// the position is out of range.
    pub fn token_by_index(&self, index: i64) -> (r: i64)
        requires
            self.wf(),
        ensures
            r == (if 1 <= index && index <= self.global_token_counter {
                self.global_index@[index - 1]
            } else {
                0i64
            }),
    {
        if index <= 0 {
            return 0;
        }
        if index > self.global_token_counter {
            return 0;
        }
        let len: usize = self.global_index.len();
        proof {
            assert(index - 1 < len as int);
        }
        let idx: usize = (index - 1) as usize;
        self.global_index[idx]
    }

    /// The live tokens owned by the account a reference resolves to, in
    /// global index order; empty for references without identity.
    pub fn tokens_of(&self, owner: &AccountRef) -> (r: Vec<i64>)
        requires
            self.wf(),
        ensures
            spec_account_id(*owner) > 0 ==> r@ == self.spec_active_tokens(
                Some(spec_account_id(*owner)),
                None,
            ),
            spec_account_id(*owner) <= 0 ==> r@ == Seq::<i64>::empty(),
    {
        let owner_id = account_id_of(owner);
        if owner_id <= 0 {
            return Vec::new();
        }
        self.collect_active_tokens(Some(owner_id), None)
    }

    /// The token at a 1-based position of an owner's filtered enumeration;
    /// 0 when the position is out of range or the owner does not resolve.
    pub fn token_of_by_index(&self, owner: &AccountRef, index: i64) -> (r: i64)
        requires
            self.wf(),
        ensures
            r == (if spec_account_id(*owner) > 0 && 1 <= index && index
                <= self.spec_active_tokens(Some(spec_account_id(*owner)), None).len() {
                self.spec_active_tokens(Some(spec_account_id(*owner)), None)[index - 1]
            } else {
                0i64
            }),
    {
        if index <= 0 {
            return 0;
        }
        let owner_id = account_id_of(owner);
        if owner_id <= 0 {
            return 0;
        }
        let list = self.collect_active_tokens(Some(owner_id), None);
        if index > list.len() as i64 {
            return 0;
        }
        list[(index - 1) as usize]
    }

    /// The live tokens of one collection, in global index order; empty for
    /// a non-positive collection id.
    pub fn get_collection_tokens(&self, collection_id: i64) -> (r: Vec<i64>)
        requires
            self.wf(),
        ensures
            collection_id >= 1 ==> r@ == self.spec_active_tokens(None, Some(collection_id)),
            collection_id < 1 ==> r@ == Seq::<i64>::empty(),
    {
        if collection_id <= 0 {
            return Vec::new();
        }
        self.collect_active_tokens(None, Some(collection_id))
    }

    /// The token bound to a collection serial; 0 when none is.
    pub fn get_collection_token_by_serial(&self, collection_id: i64, serial: i64) -> (r: i64)
        requires
            self.wf(),
        ensures
            r == (if collection_id >= 1 && serial >= 1 {
                self.spec_collection_token(collection_id, serial)
            } else {
                0i64
            }),
    {
        if collection_id <= 0 || serial <= 0 {
            return 0;
        }
        match self.collection_tokens.get(collection_id, serial) {
            Some(v) => *v,
            None => 0,
        }
    }

    /// The numeric and flag record of a collection; `None` when it does not
    /// exist.  The text rows are reachable through `get_collection_field`.
    pub fn get_collection(&self, collection_id: i64) -> (r: Option<&Collection>)
        requires
            self.wf(),
        ensures
            match r {
                Some(c) => collection_id >= 1 && self.collections@.contains_key(collection_id)
                    && *c == self.collections@[collection_id],
                None => collection_id < 1 || !self.collections@.contains_key(collection_id),
            },
    {
        if collection_id <= 0 {
            return None;
        }
        self.collections.get(collection_id)
    }

    /// The value of one collection field by its numeric field code.  Text
    /// fields (codes 2 to 5) yield the legacy fixed-width integer read of
    /// their byte string; the owner field (code 1) yields the owner's
    /// account id.
    pub open spec fn spec_collection_field(self, collection_id: i64, field_code: i64) -> int {
        if collection_id < 1 || !self.collections@.contains_key(collection_id) {
            0
        } else {
            let c = self.collections@[collection_id];
            if field_code == 1 {
                c.owner as int
            } else if field_code == 2 {
                spec_le_prefix_i64(self.spec_collection_name(collection_id))
            } else if field_code == 3 {
                spec_le_prefix_i64(self.spec_collection_symbol(collection_id))
            } else if field_code == 4 {
                spec_le_prefix_i64(self.spec_collection_description(collection_id))
            } else if field_code == 5 {
                spec_le_prefix_i64(self.spec_collection_base_uri(collection_id))
            } else if field_code == 6 {
                c.max_supply as int
            } else if field_code == 7 {
                c.minted as int
            } else if field_code == 8 {
                c.royalty_bps as int
            } else if field_code == 9 {
                if c.transferable {
                    1
                } else {
                    0
                }
            } else if field_code == 10 {
                if c.paused {
                    1
                } else {
                    0
                }
            } else if field_code == 11 {
                c.created_at as int
            } else {
                0
            }
        }
    }

    /// Reads one collection field by its numeric field code.
    pub fn get_collection_field(&self, collection_id: i64, field_code: i64) -> (r: i64)
        requires
            self.wf(),
        ensures
            r as int == self.spec_collection_field(collection_id, field_code),
    {
        if collection_id <= 0 {
            return 0;
        }
        let c: Collection = match self.collections.get(collection_id) {
            Some(cc) => *cc,
            None => {
                return 0;
            },
        };
        if field_code == 1 {
            c.owner
        } else if field_code == 2 {
            match self.collection_names.get(collection_id) {
                Some(v) => crate::encoding::i64_from_le_prefix(v),
                None => 0,
            }
        } else if field_code == 3 {
            match self.collection_symbols.get(collection_id) {
                Some(v) => crate::encoding::i64_from_le_prefix(v),
                None => 0,
            }
        } else if field_code == 4 {
            match self.collection_descriptions.get(collection_id) {
                Some(v) => crate::encoding::i64_from_le_prefix(v),
                None => 0,
            }
        } else if field_code == 5 {
            match self.collection_base_uris.get(collection_id) {
                Some(v) => crate::encoding::i64_from_le_prefix(v),
                None => 0,
            }
        } else if field_code == 6 {
            c.max_supply
        } else if field_code == 7 {
            c.minted
        } else if field_code == 8 {
            c.royalty_bps
        } else if field_code == 9 {
            if c.transferable {
                1
            } else {
                0
            }
        } else if field_code == 10 {
            if c.paused {
                1
            } else {
                0
            }
        } else if field_code == 11 {
            c.created_at
        } else {
            0
        }
    }

    /// The record of a token; `None` when it does not exist.
    pub fn get_token(&self, token_id: i64) -> (r: Option<&Token>)
        requires
            self.wf(),
        ensures
            match r {
                Some(t) => token_id >= 1 && self.tokens@.contains_key(token_id) && *t
                    == self.tokens@[token_id],
                None => token_id < 1 || !self.tokens@.contains_key(token_id),
            },
    {
        if token_id <= 0 {
            return None;
        }
        self.tokens.get(token_id)
    }

    /// The value of one token field by its numeric field code; the owner
    /// field (code 2) yields the owner's account id.
    pub open spec fn spec_token_field(self, token_id: i64, field_code: i64) -> i64 {
        if token_id < 1 || !self.tokens@.contains_key(token_id) {
            0
        } else {
            let t = self.tokens@[token_id];
            if field_code == 1 {
                t.collection_id
            } else if field_code == 2 {
                t.owner
            } else if field_code == 3 {
                t.uri_ref
            } else if field_code == 4 {
                t.properties_ref
            } else if field_code == 5 {
                if t.burned {
                    1
                } else {
                    0
                }
            } else if field_code == 6 {
                t.minted_at
            } else if field_code == 7 {
                t.class
            } else {
                0
            }
        }
    }

    /// Reads one token field by its numeric field code.
    pub fn get_token_field(&self, token_id: i64, field_code: i64) -> (r: i64)
        requires
            self.wf(),
        ensures
            r == self.spec_token_field(token_id, field_code),
    {
        if token_id <= 0 {
            return 0;
        }
        let t: Token = match self.tokens.get(token_id) {
            Some(tt) => *tt,
            None => {
                return 0;
            },
        };
        if field_code == 1 {
            t.collection_id
        } else if field_code == 2 {
            t.owner
        } else if field_code == 3 {
            t.uri_ref
        } else if field_code == 4 {
            t.properties_ref
        } else if field_code == 5 {
            if t.burned {
                1
            } else {
                0
            }
        } else if field_code == 6 {
            t.minted_at
        } else if field_code == 7 {
            t.class
        } else {
            0
        }
    }

    /// The URI reference of a token; 0 when the token does not exist.  The
    /// host resolves the reference to its text.
    pub fn token_uri(&self, token_id: i64) -> (r: i64)
        requires
            self.wf(),
        ensures
            r == (if self.tokens@.contains_key(token_id) {
                self.tokens@[token_id].uri_ref
            } else {
                0i64
            }),
    {
        match self.tokens.get(token_id) {
            Some(t) => t.uri_ref,
            None => 0,
        }
    }

    /// The structured properties view of a token; `None` when it does not
    /// exist.
    pub fn properties(&self, token_id: i64) -> (r: Option<TokenProperties>)
        requires
            self.wf(),
        ensures
            match r {
                Some(p) => self.tokens@.contains_key(token_id) && p == (TokenProperties {
                    token_id,
                    collection_id: self.tokens@[token_id].collection_id,
                    owner: self.tokens@[token_id].owner,
                    token_uri_ref: self.tokens@[token_id].uri_ref,
                    properties_ref: self.tokens@[token_id].properties_ref,
                    token_class: self.tokens@[token_id].class,
                }),
                None => !self.tokens@.contains_key(token_id),
            },
    {
        match self.tokens.get(token_id) {
            Some(t) => Some(
                TokenProperties {
                    token_id,
                    collection_id: t.collection_id,
                    owner: t.owner,
                    token_uri_ref: t.uri_ref,
                    properties_ref: t.properties_ref,
                    token_class: t.class,
                },
            ),
            None => None,
        }
    }

    /// The royalty report of a token as JSON ASCII bytes: `[]` when the
    /// token does not exist or its collection has no royalty, else one
    /// entry with the owner's hex address and the royalty basis points.
    pub open spec fn spec_royalties_json(self, token_id: i64) -> Seq<u8> {
        if !self.tokens@.contains_key(token_id) {
            seq![0x5bu8, 0x5du8]
        } else {
            let cid = self.tokens@[token_id].collection_id;
            if !self.collections@.contains_key(cid) || self.collections@[cid].royalty_bps <= 0 {
                seq![0x5bu8, 0x5du8]
            } else {
                seq![
                    0x5bu8, 0x7bu8, 0x22u8, 0x61u8, 0x64u8, 0x64u8, 0x72u8, 0x65u8, 0x73u8,
                    0x73u8, 0x22u8, 0x3au8, 0x22u8,
                ] + seq![0x30u8, 0x78u8] + spec_hex_digits(
                    self.spec_address_of(self.collections@[cid].owner),
                ) + seq![0x22u8, 0x2cu8, 0x22u8, 0x76u8, 0x61u8, 0x6cu8, 0x75u8, 0x65u8, 0x22u8,
                    0x3au8,
                ] + spec_dec(self.collections@[cid].royalty_bps as int) + seq![0x7du8, 0x5du8]
            }
        }
    }

    /// The royalty report of a token: `[]`, or one JSON entry naming the
    /// collection owner's hex address and the royalty basis points.
    pub fn get_royalties(&self, token_id: i64) -> (r: Vec<u8>)
        requires
            self.wf(),
        ensures
            r@ == self.spec_royalties_json(token_id),
    {
        let (cid, royalty_bps) = match self.tokens.get(token_id) {
            Some(t) => {
                let c = t.collection_id;
                match self.collections.get(c) {
                    Some(cc) => (c, cc.royalty_bps),
                    None => {
                        let e: Vec<u8> = vec![0x5bu8, 0x5du8];
                        proof {
                            assert(e@ =~= seq![0x5bu8, 0x5du8]);
                        }
                        return e;
                    },
                }
            },
            None => {
                let e: Vec<u8> = vec![0x5bu8, 0x5du8];
                proof {
                    assert(e@ =~= seq![0x5bu8, 0x5du8]);
                }
                return e;
            },
        };
        if royalty_bps <= 0 {
            let e: Vec<u8> = vec![0x5bu8, 0x5du8];
            proof {
                assert(e@ =~= seq![0x5bu8, 0x5du8]);
            }
            return e;
        }
        let owner: i64 = match self.collections.get(cid) {
            Some(cc) => cc.owner,
            None => {
                proof {
                    assert(false);
                }
                return Vec::new();
            },
        };
        let addr = self.account_hash160(owner);
        let mut hex = hex_encode(&addr);
        let mut out: Vec<u8> = vec![
            0x5bu8, 0x7bu8, 0x22u8, 0x61u8, 0x64u8, 0x64u8, 0x72u8, 0x65u8, 0x73u8, 0x73u8,
            0x22u8, 0x3au8, 0x22u8,
        ];
        let ghost head = out@;
        out.append(&mut hex);
        let mut mid: Vec<u8> = vec![
            0x22u8, 0x2cu8, 0x22u8, 0x76u8, 0x61u8, 0x6cu8, 0x75u8, 0x65u8, 0x22u8, 0x3au8,
        ];
        let ghost mid0 = mid@;
        out.append(&mut mid);
        dec_bytes(royalty_bps, &mut out);
        out.push(0x7du8);
        out.push(0x5du8);
        proof {
            assert(out@ =~= self.spec_royalties_json(token_id));
        }
        out
    }

    /// The royalty recipient and amount for a sale: the collection owner's
    /// address and `floor(sale_price * royalty_bps / 10000)`; `None` when
    /// the token does not exist, no royalty is set, the sale price is not
    /// positive, or the product overflows.
    pub fn royalty_info(&self, token_id: i64, _royalty_token_ref: i64, sale_price: i64) -> (r:
        Option<(Vec<u8>, i64)>)
        requires
            self.wf(),
        ensures
            match r {
                Some(p) => sale_price > 0 && self.tokens@.contains_key(token_id)
                    && self.collections@.contains_key(self.tokens@[token_id].collection_id)
                    && self.collections@[self.tokens@[token_id].collection_id].royalty_bps > 0
                    && sale_price * self.collections@[self.tokens@[token_id].collection_id].royalty_bps
                    <= i64::MAX && p.0@ == self.spec_address_of(
                    self.collections@[self.tokens@[token_id].collection_id].owner,
                ) && p.1 == (sale_price * self.collections@[
                    self.tokens@[token_id].collection_id
                ].royalty_bps) / 10000,
                None => sale_price <= 0 || !self.tokens@.contains_key(token_id)
                    || !self.collections@.contains_key(self.tokens@[token_id].collection_id)
                    || self.collections@[self.tokens@[token_id].collection_id].royalty_bps <= 0
                    || sale_price * self.collections@[
                    self.tokens@[token_id].collection_id
                ].royalty_bps > i64::MAX,
            },
    {
        if sale_price <= 0 {
            return None;
        }
        let cid: i64 = match self.tokens.get(token_id) {
            Some(t) => t.collection_id,
            None => {
                return None;
            },
        };
        let (owner, royalty_bps) = match self.collections.get(cid) {
            Some(c) => (c.owner, c.royalty_bps),
            None => {
                proof {
                    assert(false);
                }
                return None;
            },
        };
        if royalty_bps <= 0 {
            return None;
        }
        let product: i64 = match sale_price.checked_mul(royalty_bps) {
            Some(p) => p,
            None => {
                return None;
            },
        };
        let addr = self.account_hash160(owner);
        Some((addr, product / 10000))
    }
}

} // verus!

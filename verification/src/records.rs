//! The ledger's logical records: collections, tokens, drop and check-in
//! configurations, per-wallet statistics, and the outbound event log.  Each
//! record corresponds to one group of field-coded rows under the key schema;
//! the storage backend serializes them through `keys` and `encoding`.

use vstd::prelude::*;

verus! {

/// Token class code: an ordinary token.
pub const TOKEN_CLASS_STANDARD: i64 = 0;

/// Token class code: a membership token, counted in the per-collection
/// membership balance and subject to the soulbound flag.
pub const TOKEN_CLASS_MEMBERSHIP: i64 = 1;

/// Token class code: a proof token minted by a check-in.
pub const TOKEN_CLASS_CHECKIN_PROOF: i64 = 2;

/// A tenant's collection record: the numeric and flag rows.  The four text
/// rows (name, symbol, description, base URI) are byte strings filed under
/// their own field codes and live in row stores of their own.
#[derive(Clone, Copy)]
pub struct Collection {
    /// Owner account id; always positive.
    pub owner: i64,
    /// Mint cap; 0 means unlimited.
    pub max_supply: i64,
    /// Number of tokens ever minted; never decremented, burns included.
    pub minted: i64,
    /// Royalty in basis points, 0 to 10000.
    pub royalty_bps: i64,
    /// Whether tokens of this collection may be transferred at all.
    pub transferable: bool,
    /// Whether all mutation of this collection's tokens is suspended.
    pub paused: bool,
    /// Timestamp the collection was created at.
    pub created_at: i64,
    /// The 1-based serial counter, private to this collection.
    pub serial: i64,
}

/// A token record.  Tokens are never deleted; a burn only sets the tombstone
/// flag.
#[derive(Clone, Copy)]
pub struct Token {
    /// The collection the token belongs to; always positive.
    pub collection_id: i64,
    /// Current owner account id; always positive, burned tokens included.
    pub owner: i64,
    /// URI reference; defaulted from the collection's base URI row at mint.
    pub uri_ref: i64,
    /// Properties reference; defaulted from the collection's name row at
    /// mint.
    pub properties_ref: i64,
    /// Tombstone flag.
    pub burned: bool,
    /// Timestamp the token was minted at.
    pub minted_at: i64,
    /// Token class code, 0 to 2.
    pub class: i64,
}

/// A collection's drop-distribution configuration; absent rows read as the
/// all-zero configuration (disabled).
#[derive(Clone, Copy)]
pub struct DropConfig {
    pub enabled: bool,
    /// Window start; 0 means unbounded below.
    pub start_at: i64,
    /// Window end; 0 means unbounded above.
    pub end_at: i64,
    /// Claims allowed per wallet; 0 means unlimited.
    pub per_wallet_limit: i64,
    /// Whether a whitelist allowance is required to claim.
    pub whitelist_required: bool,
}

impl DropConfig {
    /// The configuration an absent row denotes.
    pub open spec fn spec_default() -> DropConfig {
        DropConfig {
            enabled: false,
            start_at: 0,
            end_at: 0,
            per_wallet_limit: 0,
            whitelist_required: false,
        }
    }

    /// The configuration an absent row denotes.
    pub fn empty() -> (r: DropConfig)
        ensures
            r == DropConfig::spec_default(),
    {
        DropConfig {
            enabled: false,
            start_at: 0,
            end_at: 0,
            per_wallet_limit: 0,
            whitelist_required: false,
        }
    }
}

/// A collection's check-in program configuration; absent rows read as the
/// all-zero configuration (disabled).
#[derive(Clone, Copy)]
pub struct CheckInProgram {
    pub enabled: bool,
    /// Whether a positive membership balance is required to check in.
    pub membership_required: bool,
    /// Whether the collection's membership tokens are non-transferable.
    /// Read by the token ledger's transfer gate, not by check-in itself.
    pub membership_soulbound: bool,
    /// Window start; 0 means unbounded below.
    pub start_at: i64,
    /// Window end; 0 means unbounded above.
    pub end_at: i64,
    /// Minimum seconds between two check-ins of one wallet; 0 means none.
    pub interval_seconds: i64,
    /// Check-ins allowed per wallet; 0 means unlimited.
    pub max_checkins_per_wallet: i64,
    /// Whether each check-in mints a proof token.
    pub mint_proof_nft: bool,
}

impl CheckInProgram {
    /// The configuration an absent row denotes.
    pub open spec fn spec_default() -> CheckInProgram {
        CheckInProgram {
            enabled: false,
            membership_required: false,
            membership_soulbound: false,
            start_at: 0,
            end_at: 0,
            interval_seconds: 0,
            max_checkins_per_wallet: 0,
            mint_proof_nft: false,
        }
    }

    /// The configuration an absent row denotes.
    pub fn empty() -> (r: CheckInProgram)
        ensures
            r == CheckInProgram::spec_default(),
    {
        CheckInProgram {
            enabled: false,
            membership_required: false,
            membership_soulbound: false,
            start_at: 0,
            end_at: 0,
            interval_seconds: 0,
            max_checkins_per_wallet: 0,
            mint_proof_nft: false,
        }
    }
}

/// One wallet's check-in statistics for one collection; absent rows read as
/// all-zero.
#[derive(Clone, Copy)]
pub struct WalletStats {
    /// Cumulative check-ins performed.
    pub checkin_count: i64,
    /// Timestamp of the last check-in; 0 when none happened yet.
    pub last_checkin_at: i64,
}

impl WalletStats {
    /// The statistics an absent row denotes.
    pub open spec fn spec_default() -> WalletStats {
        WalletStats { checkin_count: 0, last_checkin_at: 0 }
    }

    /// The statistics an absent row denotes.
    pub fn empty() -> (r: WalletStats)
        ensures
            r == WalletStats::spec_default(),
    {
        WalletStats { checkin_count: 0, last_checkin_at: 0 }
    }
}

/// The token's view assembled by the `properties` query.
#[derive(Clone, Copy)]
pub struct TokenProperties {
    pub token_id: i64,
    pub collection_id: i64,
    /// Owner account id.
    pub owner: i64,
    pub token_uri_ref: i64,
    pub properties_ref: i64,
    pub token_class: i64,
}

/// One entry of the outbound event log.  Account parties are carried as
/// account ids (`None` stands for the null party of a mint or burn); the
/// sink encodes them as 20-byte addresses through `account_hash160`, integer
/// identifiers as minimal-length byte strings, and reads a collection's text
/// fields from its record.  Field order follows the documented event layout.
pub enum Event {
    Transfer { from: Option<i64>, to: Option<i64>, amount: i64, token_id: i64 },
    CollectionUpserted {
        collection_id: i64,
        owner: i64,
        max_supply: i64,
        minted: i64,
        royalty_bps: i64,
        transferable: bool,
        paused: bool,
        created_at: i64,
    },
    TokenUpserted { token_id: i64, token: Token },
    CollectionOperatorUpdated { collection_id: i64, operator: i64, enabled: bool },
    DropConfigUpdated {
        collection_id: i64,
        enabled: bool,
        start_at: i64,
        end_at: i64,
        per_wallet_limit: i64,
        whitelist_required: bool,
    },
    DropWhitelistUpdated { collection_id: i64, account: i64, allowance: i64 },
    DropClaimed { collection_id: i64, claimer: i64, token_id: i64, claimed_count: i64 },
    CheckInProgramUpdated { collection_id: i64, program: CheckInProgram },
    CheckedIn {
        collection_id: i64,
        account: i64,
        check_in_count: i64,
        checked_at: i64,
        /// 0 when the check-in minted no proof token.
        proof_token_id: i64,
    },
}

} // verus!

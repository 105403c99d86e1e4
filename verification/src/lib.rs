//! A multi-tenant non-fungible-token ledger.
//!
//! Many independent collections, each with its own owner and policy, share one
//! ledger: a single token/account numbering scheme, per-account balances, a
//! drop-distribution engine and a check-in program engine, all backed by one
//! flat key-value key schema.  The ledger state itself is held in structured
//! records; the byte-level key schema used by the storage backend is kept as a
//! verified encode boundary in `keys`.
//!
//! The host collaborators (the key-value storage primitive, the witness
//! oracle, the wall-clock and the event sink) are not part of the library:
//! callers hand in plain values (oracle answers, the current timestamp) and
//! take plain values back (the appended event log).

use vstd::prelude::*;

pub mod account;
pub mod collection;
pub mod drop;
pub mod encoding;
pub mod keys;
pub mod laws;
pub mod membership;
pub mod query;
pub mod records;
pub mod state;
pub mod store;
pub mod token;

verus! {

/// Token identifiers are `collection_id * TOKEN_SERIAL_FACTOR + serial`;
/// a collection must therefore never issue a serial at or above this bound.
pub const TOKEN_SERIAL_FACTOR: i64 = 1_000_000;

} // verus!

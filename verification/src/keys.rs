//! The key schema: pure functions mapping (entity kind, entity id, field
//! code) to the composite byte keys under which the storage backend files
//! each row.  Every key is an ASCII prefix naming the row family, followed by
//! the fixed-width little-endian identifiers and, for field rows, the field
//! code byte.

use vstd::prelude::*;
use crate::encoding::{i64_to_le_bytes, spec_le64};

verus! {

/// Key prefix `mnr:c:` followed by the collection id and a field code.
pub open spec fn spec_collection_field_key(collection_id: i64, field: u8) -> Seq<u8> {
    seq![0x6du8, 0x6eu8, 0x72u8, 0x3au8, 0x63u8, 0x3au8] + spec_le64(collection_id)
        + seq![field]
}

/// Key prefix `mnr:c:serial:` followed by the collection id.
pub open spec fn spec_collection_serial_key(collection_id: i64) -> Seq<u8> {
    seq![
        0x6du8, 0x6eu8, 0x72u8, 0x3au8, 0x63u8, 0x3au8, 0x73u8, 0x65u8, 0x72u8, 0x69u8,
        0x61u8, 0x6cu8, 0x3au8,
    ] + spec_le64(collection_id)
}

/// Key prefix `mnr:c:token:` followed by the collection id, `:`, the serial.
pub open spec fn spec_collection_token_key(collection_id: i64, serial: i64) -> Seq<u8> {
    seq![
        0x6du8, 0x6eu8, 0x72u8, 0x3au8, 0x63u8, 0x3au8, 0x74u8, 0x6fu8, 0x6bu8, 0x65u8,
        0x6eu8, 0x3au8,
    ] + spec_le64(collection_id) + seq![0x3au8] + spec_le64(serial)
}

/// Key prefix `mnr:t:` followed by the token id and a field code.
pub open spec fn spec_token_field_key(token_id: i64, field: u8) -> Seq<u8> {
    seq![0x6du8, 0x6eu8, 0x72u8, 0x3au8, 0x74u8, 0x3au8] + spec_le64(token_id) + seq![field]
}

/// Key prefix `mnr:g:token:` followed by the global index position.
pub open spec fn spec_global_token_key(index: i64) -> Seq<u8> {
    seq![
        0x6du8, 0x6eu8, 0x72u8, 0x3au8, 0x67u8, 0x3au8, 0x74u8, 0x6fu8, 0x6bu8, 0x65u8,
        0x6eu8, 0x3au8,
    ] + spec_le64(index)
}

/// Key prefix `mnr:balance:` followed by the owner account id.
pub open spec fn spec_balance_key(owner: i64) -> Seq<u8> {
    seq![
        0x6du8, 0x6eu8, 0x72u8, 0x3au8, 0x62u8, 0x61u8, 0x6cu8, 0x61u8, 0x6eu8, 0x63u8,
        0x65u8, 0x3au8,
    ] + spec_le64(owner)
}

/// Key prefix `mnr:operator:` followed by the collection id, `:`, the
/// operator account id.
pub open spec fn spec_operator_key(collection_id: i64, operator: i64) -> Seq<u8> {
    seq![
        0x6du8, 0x6eu8, 0x72u8, 0x3au8, 0x6fu8, 0x70u8, 0x65u8, 0x72u8, 0x61u8, 0x74u8,
        0x6fu8, 0x72u8, 0x3au8,
    ] + spec_le64(collection_id) + seq![0x3au8] + spec_le64(operator)
}

/// Key prefix `mnr:account:` followed by the account id.
pub open spec fn spec_account_hash_key(account_id: i64) -> Seq<u8> {
    seq![
        0x6du8, 0x6eu8, 0x72u8, 0x3au8, 0x61u8, 0x63u8, 0x63u8, 0x6fu8, 0x75u8, 0x6eu8,
        0x74u8, 0x3au8,
    ] + spec_le64(account_id)
}

/// Key prefix `mnr:owner:collection:` followed by the owner account id.
pub open spec fn spec_owner_collection_key(owner: i64) -> Seq<u8> {
    seq![
        0x6du8, 0x6eu8, 0x72u8, 0x3au8, 0x6fu8, 0x77u8, 0x6eu8, 0x65u8, 0x72u8, 0x3au8,
        0x63u8, 0x6fu8, 0x6cu8, 0x6cu8, 0x65u8, 0x63u8, 0x74u8, 0x69u8, 0x6fu8, 0x6eu8,
        0x3au8,
    ] + spec_le64(owner)
}

/// Key prefix `mnr:drop:cfg:` followed by the collection id and a field code.
pub open spec fn spec_drop_config_key(collection_id: i64, field: u8) -> Seq<u8> {
    seq![
        0x6du8, 0x6eu8, 0x72u8, 0x3au8, 0x64u8, 0x72u8, 0x6fu8, 0x70u8, 0x3au8, 0x63u8,
        0x66u8, 0x67u8, 0x3au8,
    ] + spec_le64(collection_id) + seq![field]
}

/// Key prefix `mnr:drop:wl:` followed by the collection id, `:`, the account.
pub open spec fn spec_drop_whitelist_key(collection_id: i64, account: i64) -> Seq<u8> {
    seq![
        0x6du8, 0x6eu8, 0x72u8, 0x3au8, 0x64u8, 0x72u8, 0x6fu8, 0x70u8, 0x3au8, 0x77u8,
        0x6cu8, 0x3au8,
    ] + spec_le64(collection_id) + seq![0x3au8] + spec_le64(account)
}

/// Key prefix `mnr:drop:claimed:` followed by the collection id, `:`, the
/// account.
pub open spec fn spec_drop_claimed_key(collection_id: i64, account: i64) -> Seq<u8> {
    seq![
        0x6du8, 0x6eu8, 0x72u8, 0x3au8, 0x64u8, 0x72u8, 0x6fu8, 0x70u8, 0x3au8, 0x63u8,
        0x6cu8, 0x61u8, 0x69u8, 0x6du8, 0x65u8, 0x64u8, 0x3au8,
    ] + spec_le64(collection_id) + seq![0x3au8] + spec_le64(account)
}

/// Key prefix `mnr:checkin:cfg:` followed by the collection id and a field
/// code.
pub open spec fn spec_checkin_program_key(collection_id: i64, field: u8) -> Seq<u8> {
    seq![
        0x6du8, 0x6eu8, 0x72u8, 0x3au8, 0x63u8, 0x68u8, 0x65u8, 0x63u8, 0x6bu8, 0x69u8,
        0x6eu8, 0x3au8, 0x63u8, 0x66u8, 0x67u8, 0x3au8,
    ] + spec_le64(collection_id) + seq![field]
}

/// Key prefix `mnr:checkin:wallet:` followed by the collection id, `:`, the
/// account id and a field code.
pub open spec fn spec_checkin_wallet_key(collection_id: i64, account: i64, field: u8) -> Seq<u8> {
    seq![
        0x6du8, 0x6eu8, 0x72u8, 0x3au8, 0x63u8, 0x68u8, 0x65u8, 0x63u8, 0x6bu8, 0x69u8,
        0x6eu8, 0x3au8, 0x77u8, 0x61u8, 0x6cu8, 0x6cu8, 0x65u8, 0x74u8, 0x3au8,
    ] + spec_le64(collection_id) + seq![0x3au8] + spec_le64(account) + seq![field]
}

/// Key prefix `mnr:membership:balance:` followed by the collection id, `:`,
/// the account id.
pub open spec fn spec_membership_balance_key(collection_id: i64, account: i64) -> Seq<u8> {
    seq![
        0x6du8, 0x6eu8, 0x72u8, 0x3au8, 0x6du8, 0x65u8, 0x6du8, 0x62u8, 0x65u8, 0x72u8,
        0x73u8, 0x68u8, 0x69u8, 0x70u8, 0x3au8, 0x62u8, 0x61u8, 0x6cu8, 0x61u8, 0x6eu8,
        0x63u8, 0x65u8, 0x3au8,
    ] + spec_le64(collection_id) + seq![0x3au8] + spec_le64(account)
}

/// Key of one field row of a collection record.
pub fn collection_field_key(collection_id: i64, field: u8) -> (r: Vec<u8>)
    ensures
        r@ == spec_collection_field_key(collection_id, field),
{
    let mut k: Vec<u8> = vec![0x6du8, 0x6eu8, 0x72u8, 0x3au8, 0x63u8, 0x3au8];
    let mut le: Vec<u8> = i64_to_le_bytes(collection_id);
    k.append(&mut le);
    k.push(field);
    k
}

/// Key of a collection's serial counter row.
pub fn collection_serial_key(collection_id: i64) -> (r: Vec<u8>)
    ensures
        r@ == spec_collection_serial_key(collection_id),
{
    let mut k: Vec<u8> = vec![
        0x6du8, 0x6eu8, 0x72u8, 0x3au8, 0x63u8, 0x3au8, 0x73u8, 0x65u8, 0x72u8, 0x69u8,
        0x61u8, 0x6cu8, 0x3au8,
    ];
    let mut le: Vec<u8> = i64_to_le_bytes(collection_id);
    k.append(&mut le);
    k
}

/// Key of a collection's serial-to-token index row.
pub fn collection_token_key(collection_id: i64, serial: i64) -> (r: Vec<u8>)
    ensures
        r@ == spec_collection_token_key(collection_id, serial),
{
    let mut k: Vec<u8> = vec![
        0x6du8, 0x6eu8, 0x72u8, 0x3au8, 0x63u8, 0x3au8, 0x74u8, 0x6fu8, 0x6bu8, 0x65u8,
        0x6eu8, 0x3au8,
    ];
    let mut le: Vec<u8> = i64_to_le_bytes(collection_id);
    k.append(&mut le);
    k.push(0x3au8);
    let mut le2: Vec<u8> = i64_to_le_bytes(serial);
    k.append(&mut le2);
    k
}

/// Key of one field row of a token record.
pub fn token_field_key(token_id: i64, field: u8) -> (r: Vec<u8>)
    ensures
        r@ == spec_token_field_key(token_id, field),
{
    let mut k: Vec<u8> = vec![0x6du8, 0x6eu8, 0x72u8, 0x3au8, 0x74u8, 0x3au8];
    let mut le: Vec<u8> = i64_to_le_bytes(token_id);
    k.append(&mut le);
    k.push(field);
    k
}

/// Key of one position of the global append-only token index.
pub fn global_token_key(index: i64) -> (r: Vec<u8>)
    ensures
        r@ == spec_global_token_key(index),
{
    let mut k: Vec<u8> = vec![
        0x6du8, 0x6eu8, 0x72u8, 0x3au8, 0x67u8, 0x3au8, 0x74u8, 0x6fu8, 0x6bu8, 0x65u8,
        0x6eu8, 0x3au8,
    ];
    let mut le: Vec<u8> = i64_to_le_bytes(index);
    k.append(&mut le);
    k
}

/// Key of an account's live-token balance row.
pub fn balance_key(owner: i64) -> (r: Vec<u8>)
    ensures
        r@ == spec_balance_key(owner),
{
    let mut k: Vec<u8> = vec![
        0x6du8, 0x6eu8, 0x72u8, 0x3au8, 0x62u8, 0x61u8, 0x6cu8, 0x61u8, 0x6eu8, 0x63u8,
        0x65u8, 0x3au8,
    ];
    let mut le: Vec<u8> = i64_to_le_bytes(owner);
    k.append(&mut le);
    k
}

/// Key of an operator grant row.
pub fn operator_key(collection_id: i64, operator: i64) -> (r: Vec<u8>)
    ensures
        r@ == spec_operator_key(collection_id, operator),
{
    let mut k: Vec<u8> = vec![
        0x6du8, 0x6eu8, 0x72u8, 0x3au8, 0x6fu8, 0x70u8, 0x65u8, 0x72u8, 0x61u8, 0x74u8,
        0x6fu8, 0x72u8, 0x3au8,
    ];
    let mut le: Vec<u8> = i64_to_le_bytes(collection_id);
    k.append(&mut le);
    k.push(0x3au8);
    let mut le2: Vec<u8> = i64_to_le_bytes(operator);
    k.append(&mut le2);
    k
}

/// Key of the reverse account-id-to-address mapping row.
pub fn account_hash_key(account_id: i64) -> (r: Vec<u8>)
    ensures
        r@ == spec_account_hash_key(account_id),
{
    let mut k: Vec<u8> = vec![
        0x6du8, 0x6eu8, 0x72u8, 0x3au8, 0x61u8, 0x63u8, 0x63u8, 0x6fu8, 0x75u8, 0x6eu8,
        0x74u8, 0x3au8,
    ];
    let mut le: Vec<u8> = i64_to_le_bytes(account_id);
    k.append(&mut le);
    k
}

/// Key of the owner-to-dedicated-collection binding row.
pub fn owner_collection_key(owner: i64) -> (r: Vec<u8>)
    ensures
        r@ == spec_owner_collection_key(owner),
{
    let mut k: Vec<u8> = vec![
        0x6du8, 0x6eu8, 0x72u8, 0x3au8, 0x6fu8, 0x77u8, 0x6eu8, 0x65u8, 0x72u8, 0x3au8,
        0x63u8, 0x6fu8, 0x6cu8, 0x6cu8, 0x65u8, 0x63u8, 0x74u8, 0x69u8, 0x6fu8, 0x6eu8,
        0x3au8,
    ];
    let mut le: Vec<u8> = i64_to_le_bytes(owner);
    k.append(&mut le);
    k
}

/// Key of one field row of a collection's drop configuration.
pub fn drop_config_key(collection_id: i64, field: u8) -> (r: Vec<u8>)
    ensures
        r@ == spec_drop_config_key(collection_id, field),
{
    let mut k: Vec<u8> = vec![
        0x6du8, 0x6eu8, 0x72u8, 0x3au8, 0x64u8, 0x72u8, 0x6fu8, 0x70u8, 0x3au8, 0x63u8,
        0x66u8, 0x67u8, 0x3au8,
    ];
    let mut le: Vec<u8> = i64_to_le_bytes(collection_id);
    k.append(&mut le);
    k.push(field);
    k
}

/// Key of a drop whitelist allowance row.
pub fn drop_whitelist_key(collection_id: i64, account: i64) -> (r: Vec<u8>)
    ensures
        r@ == spec_drop_whitelist_key(collection_id, account),
{
    let mut k: Vec<u8> = vec![
        0x6du8, 0x6eu8, 0x72u8, 0x3au8, 0x64u8, 0x72u8, 0x6fu8, 0x70u8, 0x3au8, 0x77u8,
        0x6cu8, 0x3au8,
    ];
    let mut le: Vec<u8> = i64_to_le_bytes(collection_id);
    k.append(&mut le);
    k.push(0x3au8);
    let mut le2: Vec<u8> = i64_to_le_bytes(account);
    k.append(&mut le2);
    k
}

/// Key of a drop claimed-count row.
pub fn drop_claimed_key(collection_id: i64, account: i64) -> (r: Vec<u8>)
    ensures
        r@ == spec_drop_claimed_key(collection_id, account),
{
    let mut k: Vec<u8> = vec![
        0x6du8, 0x6eu8, 0x72u8, 0x3au8, 0x64u8, 0x72u8, 0x6fu8, 0x70u8, 0x3au8, 0x63u8,
        0x6cu8, 0x61u8, 0x69u8, 0x6du8, 0x65u8, 0x64u8, 0x3au8,
    ];
    let mut le: Vec<u8> = i64_to_le_bytes(collection_id);
    k.append(&mut le);
    k.push(0x3au8);
    let mut le2: Vec<u8> = i64_to_le_bytes(account);
    k.append(&mut le2);
    k
}

/// Key of one field row of a collection's check-in program configuration.
pub fn checkin_program_key(collection_id: i64, field: u8) -> (r: Vec<u8>)
    ensures
        r@ == spec_checkin_program_key(collection_id, field),
{
    let mut k: Vec<u8> = vec![
        0x6du8, 0x6eu8, 0x72u8, 0x3au8, 0x63u8, 0x68u8, 0x65u8, 0x63u8, 0x6bu8, 0x69u8,
        0x6eu8, 0x3au8, 0x63u8, 0x66u8, 0x67u8, 0x3au8,
    ];
    let mut le: Vec<u8> = i64_to_le_bytes(collection_id);
    k.append(&mut le);
    k.push(field);
    k
}

/// Key of one field row of a wallet's check-in statistics.
pub fn checkin_wallet_key(collection_id: i64, account: i64, field: u8) -> (r: Vec<u8>)
    ensures
        r@ == spec_checkin_wallet_key(collection_id, account, field),
{
    let mut k: Vec<u8> = vec![
        0x6du8, 0x6eu8, 0x72u8, 0x3au8, 0x63u8, 0x68u8, 0x65u8, 0x63u8, 0x6bu8, 0x69u8,
        0x6eu8, 0x3au8, 0x77u8, 0x61u8, 0x6cu8, 0x6cu8, 0x65u8, 0x74u8, 0x3au8,
    ];
    let mut le: Vec<u8> = i64_to_le_bytes(collection_id);
    k.append(&mut le);
    k.push(0x3au8);
    let mut le2: Vec<u8> = i64_to_le_bytes(account);
    k.append(&mut le2);
    k.push(field);
    k
}

/// Key of a per-collection membership balance row.
pub fn membership_balance_key(collection_id: i64, account: i64) -> (r: Vec<u8>)
    ensures
        r@ == spec_membership_balance_key(collection_id, account),
{
    let mut k: Vec<u8> = vec![
        0x6du8, 0x6eu8, 0x72u8, 0x3au8, 0x6du8, 0x65u8, 0x6du8, 0x62u8, 0x65u8, 0x72u8,
        0x73u8, 0x68u8, 0x69u8, 0x70u8, 0x3au8, 0x62u8, 0x61u8, 0x6cu8, 0x61u8, 0x6eu8,
        0x63u8, 0x65u8, 0x3au8,
    ];
    let mut le: Vec<u8> = i64_to_le_bytes(collection_id);
    k.append(&mut le);
    k.push(0x3au8);
    let mut le2: Vec<u8> = i64_to_le_bytes(account);
    k.append(&mut le2);
    k
}

} // verus!

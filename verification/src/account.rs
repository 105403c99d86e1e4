//! The account identity resolver: canonicalizes heterogeneous account
//! references — raw 20-byte addresses or previously issued integer aliases —
//! into one stable integer account id per physical address.
//!
//! The derivation is a pure function of the reference's content: short byte
//! strings load as a little-endian integer, longer ones fold through a 64-bit
//! FNV-1a hash forced non-zero, and the result is reinterpreted as signed.
//! A non-positive outcome means "no identity".

use vstd::prelude::*;
use crate::encoding::{
    i64_of_u64val, i64_reinterpret, i64_to_min_bytes, lemma_pow256_monotonic, pow256,
    spec_le_val, spec_min_bytes,
};

verus! {

/// FNV-1a 64-bit offset basis.
pub const FNV_OFFSET_BASIS: u64 = 0xcbf2_9ce4_8422_2325;

/// FNV-1a 64-bit prime.
pub const FNV_PRIME: u64 = 0x100_0000_01b3;

/// An account reference as the host hands it in: either an integer alias
/// issued earlier, or the raw address bytes the reference resolved to.
#[derive(Clone)]
pub enum AccountRef {
    Alias(i64),
    Address(Vec<u8>),
}

/// The abstract content of an account reference.
pub enum AccountRefView {
    Alias(i64),
    Address(Seq<u8>),
}

impl View for AccountRef {
    type V = AccountRefView;

    open spec fn view(&self) -> AccountRefView {
        match self {
            AccountRef::Alias(a) => AccountRefView::Alias(*a),
            AccountRef::Address(b) => AccountRefView::Address(b@),
        }
    }
}

/// One FNV-1a round: fold a byte into the running hash.
pub open spec fn spec_fnv_step(acc: u64, b: u8) -> u64 {
    (acc ^ (b as u64)).wrapping_mul(FNV_PRIME)
}

/// The FNV-1a hash of the bytes from position `i` on, starting from `acc`.
pub open spec fn spec_fnv_from(s: Seq<u8>, i: int, acc: u64) -> u64
    decreases s.len() - i,
{
    if i < 0 || i >= s.len() {
        acc
    } else {
        spec_fnv_from(s, i + 1, spec_fnv_step(acc, s[i]))
    }
}

/// The FNV-1a 64-bit hash of a byte string.
pub open spec fn spec_fnv64(s: Seq<u8>) -> u64 {
    spec_fnv_from(s, 0, FNV_OFFSET_BASIS)
}

/// The signed account id a byte string folds to: empty folds to 0, up to 8
/// bytes load little-endian, longer strings hash through FNV-1a with a zero
/// hash forced to 1; either way the 64-bit pattern is read as signed.
pub open spec fn spec_fold_bytes(s: Seq<u8>) -> i64 {
    if s.len() == 0 {
        0
    } else if s.len() <= 8 {
        i64_of_u64val(spec_le_val(s)) as i64
    } else {
        let h = spec_fnv64(s);
        let h2: u64 = if h == 0 {
            1
        } else {
            h
        };
        i64_of_u64val(h2 as int) as i64
    }
}

/// The account id an abstract reference resolves to: positive aliases pass
/// through, 20-byte addresses fold, everything else has no identity.
pub open spec fn spec_account_id_v(v: AccountRefView) -> i64 {
    match v {
        AccountRefView::Alias(a) => if a <= 0 {
            0
        } else {
            a
        },
        AccountRefView::Address(s) => if s.len() == 20 {
            let id = spec_fold_bytes(s);
            if id <= 0 {
                0
            } else {
                id
            }
        } else {
            0
        },
    }
}

/// The account id an account reference resolves to.
pub open spec fn spec_account_id(r: AccountRef) -> i64 {
    spec_account_id_v(r@)
}

/// Resolution is deterministic: references with the same content resolve to
/// the same account id, independent of ledger state and call count.
pub proof fn lemma_account_resolution_deterministic(r1: &AccountRef, r2: &AccountRef)
    requires
        r1@ == r2@,
    ensures
        spec_account_id(*r1) == spec_account_id(*r2),
{
}

/// `n` zero bytes.
pub open spec fn zero_bytes(n: nat) -> Seq<u8> {
    Seq::new(n, |i: int| 0u8)
}

/// A byte string normalized to exactly 20 bytes: the last 20 bytes when
/// longer, zero-filled at the front when shorter.
pub open spec fn spec_normalize20(s: Seq<u8>) -> Seq<u8> {
    if s.len() >= 20 {
        s.subrange(s.len() - 20, s.len() as int)
    } else {
        zero_bytes((20 - s.len()) as nat) + s
    }
}

/// The 20 address bytes re-derived from an account id's own encoding: the
/// minimal little-endian bytes of the id, normalized to 20 bytes; ids without
/// identity give the zero address.
pub open spec fn spec_hash160_from_ref(account_ref: i64) -> Seq<u8> {
    if account_ref <= 0 {
        zero_bytes(20)
    } else {
        spec_normalize20(spec_min_bytes(account_ref as int))
    }
}

/// Folds a byte string to a signed 64-bit account id.
pub fn fold_bytes_to_i64(bytes: &Vec<u8>) -> (r: i64)
    ensures
        r == spec_fold_bytes(bytes@),
{
    let n = bytes.len();
    if n == 0 {
        return 0;
    }
    if n <= 8 {
        let mut acc: u64 = 0;
        proof {
            assert(bytes@.subrange(n as int, n as int) =~= Seq::<u8>::empty());
        }
        let mut i: usize = n;
        while i > 0
            invariant
                0 <= i <= n,
                n == bytes@.len(),
                1 <= n <= 8,
                acc as int == spec_le_val(bytes@.subrange(i as int, n as int)),
                acc < pow256((n - i) as nat),
            decreases i,
        {
            let ghost i_pre: int = i as int;
            proof {
                lemma_pow256_monotonic((n - i) as nat, 7);
                assert(pow256(7) == 0x100_0000_0000_0000) by {
                    reveal_with_fuel(pow256, 8);
                }
            }
            acc = acc * 256 + (bytes[i - 1] as u64);
            i = i - 1;
            proof {
                assert(bytes@.subrange(i as int, n as int).drop_first() =~= bytes@.subrange(
                    i_pre,
                    n as int,
                ));
                assert(spec_le_val(bytes@.subrange(i as int, n as int)) == bytes@[i as int] + 256
                    * spec_le_val(bytes@.subrange(i_pre, n as int)));
                assert(pow256((n - i) as nat) == 256 * pow256((n - i_pre) as nat));
            }
        }
        proof {
            assert(bytes@.subrange(0, n as int) =~= bytes@);
        }
        i64_reinterpret(acc)
    } else {
        let mut acc: u64 = FNV_OFFSET_BASIS;
        let mut i: usize = 0;
        while i < n
            invariant
                0 <= i <= n,
                n == bytes@.len(),
                spec_fnv_from(bytes@, i as int, acc) == spec_fnv64(bytes@),
            decreases n - i,
        {
            let ghost acc_pre: u64 = acc;
            let ghost i_pre: int = i as int;
            acc = (acc ^ (bytes[i] as u64)).wrapping_mul(FNV_PRIME);
            i = i + 1;
            proof {
                assert(spec_fnv_from(bytes@, i_pre, acc_pre) == spec_fnv_from(
                    bytes@,
                    i as int,
                    spec_fnv_step(acc_pre, bytes@[i_pre]),
                ));
            }
        }
        let h: u64 = if acc == 0 {
            1
        } else {
            acc
        };
        i64_reinterpret(h)
    }
}

/// Normalizes a byte string to exactly 20 bytes.
pub fn normalize_hash160_bytes(bytes: &Vec<u8>) -> (r: Vec<u8>)
    ensures
        r@ == spec_normalize20(bytes@),
        r@.len() == 20,
{
    let mut out: Vec<u8> = Vec::new();
    let n = bytes.len();
    if n >= 20 {
        let start = n - 20;
        let mut i: usize = 0;
        while i < 20
            invariant
                0 <= i <= 20,
                n == bytes@.len(),
                n >= 20,
                start == n - 20,
                out@ == bytes@.subrange(start as int, start as int + i),
            decreases 20 - i,
        {
            out.push(bytes[start + i]);
            i = i + 1;
            proof {
                assert(bytes@.subrange(start as int, start as int + i) =~= bytes@.subrange(
                    start as int,
                    start as int + i - 1,
                ).push(bytes@[start as int + i - 1]));
            }
        }
    } else {
        let pad = 20 - n;
        let mut i: usize = 0;
        while i < pad
            invariant
                0 <= i <= pad,
                pad == 20 - bytes@.len(),
                out@ == zero_bytes(i as nat),
            decreases pad - i,
        {
            out.push(0);
            i = i + 1;
            proof {
                assert(zero_bytes(i as nat) =~= zero_bytes((i - 1) as nat).push(0u8));
            }
        }
        let mut j: usize = 0;
        while j < n
            invariant
                0 <= j <= n,
                n == bytes@.len(),
                n < 20,
                out@ == zero_bytes((20 - n) as nat) + bytes@.subrange(0, j as int),
            decreases n - j,
        {
            out.push(bytes[j]);
            j = j + 1;
            proof {
                assert(zero_bytes((20 - n) as nat) + bytes@.subrange(0, j as int)
                    =~= (zero_bytes((20 - n) as nat) + bytes@.subrange(0, j as int - 1)).push(
                    bytes@[j as int - 1],
                ));
            }
        }
        proof {
            assert(bytes@.subrange(0, n as int) =~= bytes@);
        }
    }
    out
}

/// The 20 address bytes re-derived from an account id's own encoding, used
/// as the fallback when no reverse mapping row exists.
pub fn hash160_bytes_from_ref(account_ref: i64) -> (r: Vec<u8>)
    ensures
        r@ == spec_hash160_from_ref(account_ref),
        r@.len() == 20,
{
    if account_ref <= 0 {
        let mut out: Vec<u8> = Vec::new();
        let mut i: usize = 0;
        while i < 20
            invariant
                0 <= i <= 20,
                out@ == zero_bytes(i as nat),
            decreases 20 - i,
        {
            out.push(0);
            i = i + 1;
            proof {
                assert(zero_bytes(i as nat) =~= zero_bytes((i - 1) as nat).push(0u8));
            }
        }
        out
    } else {
        let source = i64_to_min_bytes(account_ref);
        normalize_hash160_bytes(&source)
    }
}

/// Resolves an account reference to its canonical account id, a pure
/// function of the reference's content.
pub fn account_id_of(r: &AccountRef) -> (id: i64)
    ensures
        id == spec_account_id(*r),
{
    match r {
        AccountRef::Alias(a) => {
            if *a <= 0 {
                0
            } else {
                *a
            }
        },
        AccountRef::Address(b) => {
            if b.len() == 20 {
                let id = fold_bytes_to_i64(b);
                if id <= 0 {
                    0
                } else {
                    id
                }
            } else {
                0
            }
        },
    }
}

} // verus!

//! Byte-level integer codecs shared by the key schema and the query layer.
//!
//! Storage rows hold little-endian fixed-width integers; identifiers that
//! leave the ledger (event payloads, derived fallback addresses) use a
//! minimal-length little-endian encoding; the royalty report renders decimal
//! and hexadecimal ASCII.

use vstd::prelude::*;

verus! {

/// The unsigned 64-bit reinterpretation of a signed 64-bit value.
pub open spec fn u64_of_i64(x: i64) -> int {
    if x >= 0 {
        x as int
    } else {
        x as int + 0x1_0000_0000_0000_0000
    }
}

/// The signed 64-bit reinterpretation of an unsigned 64-bit value.
pub open spec fn i64_of_u64val(v: int) -> int {
    if v < 0x8000_0000_0000_0000 {
        v
    } else {
        v - 0x1_0000_0000_0000_0000
    }
}

/// `n` little-endian bytes of the non-negative value `v` (mod 256^n).
pub open spec fn spec_le_bytes(v: int, n: nat) -> Seq<u8>
    decreases n,
{
    if n == 0 {
        Seq::empty()
    } else {
        seq![(v % 256) as u8] + spec_le_bytes(v / 256, (n - 1) as nat)
    }
}

/// The 8 little-endian bytes of `x`, as `i64::to_le_bytes` lays them out.
pub open spec fn spec_le64(x: i64) -> Seq<u8> {
    spec_le_bytes(u64_of_i64(x), 8)
}

/// The non-negative value read from a little-endian byte sequence.
pub open spec fn spec_le_val(s: Seq<u8>) -> int
    decreases s.len(),
{
    if s.len() == 0 {
        0
    } else {
        s[0] + 256 * spec_le_val(s.drop_first())
    }
}

/// The signed value a fixed-width row read yields on a byte string: the first
/// 8 bytes as a little-endian signed integer, or 0 when fewer than 8 bytes
/// are present.
pub open spec fn spec_le_prefix_i64(s: Seq<u8>) -> int {
    if s.len() < 8 {
        0
    } else {
        i64_of_u64val(spec_le_val(s.subrange(0, 8)))
    }
}

/// Minimal little-endian magnitude bytes of a non-negative value
/// (empty for 0).
pub open spec fn spec_min_le_pos(v: int) -> Seq<u8>
    decreases v,
{
    if v <= 0 {
        Seq::empty()
    } else {
        seq![(v % 256) as u8] + spec_min_le_pos(v / 256)
    }
}

/// Minimal-length little-endian two's-complement encoding of a non-negative
/// value: the magnitude bytes, sign-padded with one zero byte when the top
/// byte would otherwise read as negative.
pub open spec fn spec_min_bytes(v: int) -> Seq<u8> {
    let s = spec_min_le_pos(v);
    if s.len() > 0 && s.last() >= 128 {
        s.push(0u8)
    } else {
        s
    }
}

/// Decimal ASCII digits of a non-negative value.
pub open spec fn spec_dec(v: int) -> Seq<u8>
    decreases v,
{
    if v < 10 {
        seq![(48 + v) as u8]
    } else {
        spec_dec(v / 10) + seq![(48 + v % 10) as u8]
    }
}

/// The lower-case hexadecimal ASCII digit of a value below 16.
pub open spec fn spec_hex_digit(d: int) -> u8 {
    if d < 10 {
        (48 + d) as u8
    } else {
        (87 + d) as u8
    }
}

/// Two lower-case hexadecimal ASCII digits per byte, in order.
pub open spec fn spec_hex_digits(s: Seq<u8>) -> Seq<u8>
    decreases s.len(),
{
    if s.len() == 0 {
        Seq::empty()
    } else {
        seq![spec_hex_digit(s[0] as int / 16), spec_hex_digit(s[0] as int % 16)]
            + spec_hex_digits(s.drop_first())
    }
}

/// The 8 little-endian bytes of `x`.
pub fn i64_to_le_bytes(x: i64) -> (r: Vec<u8>)
    ensures
        r@ == spec_le64(x),
        r@.len() == 8,
{
    let mut u: u64 = if x >= 0 {
        x as u64
    } else {
        u64::MAX - ((-(x + 1)) as u64)
    };
    proof {
        assert(u as int == u64_of_i64(x));
    }
    let ghost u0: int = u as int;
    let mut out: Vec<u8> = Vec::new();
    proof {
        assert(Seq::<u8>::empty() + spec_le_bytes(u0, 8) =~= spec_le_bytes(u0, 8));
    }
    let mut i: usize = 0;
    while i < 8
        invariant
            0 <= i <= 8,
            out@.len() == i,
            spec_le_bytes(u0, 8) == out@ + spec_le_bytes(u as int, (8 - i) as nat),
        decreases 8 - i,
    {
        let ghost u_pre: int = u as int;
        let ghost out_pre: Seq<u8> = out@;
        out.push((u % 256) as u8);
        u = u / 256;
        i = i + 1;
        proof {
            assert(spec_le_bytes(u_pre, (8 - (i - 1)) as nat)
                == seq![(u_pre % 256) as u8] + spec_le_bytes(u_pre / 256, (8 - i) as nat));
            assert(out_pre + spec_le_bytes(u_pre, (8 - (i - 1)) as nat)
                =~= out@ + spec_le_bytes(u as int, (8 - i) as nat));
        }
    }
    proof {
        assert(spec_le_bytes(u as int, 0) == Seq::<u8>::empty());
        assert(out@ + Seq::<u8>::empty() =~= out@);
    }
    out
}

/// The signed 64-bit value of the first 8 bytes of a row value, little
/// endian; 0 when the row holds fewer than 8 bytes.  This is the legacy
/// fixed-width read that the field codec applies to every row, text rows
/// included.
pub fn i64_from_le_prefix(s: &Vec<u8>) -> (r: i64)
    ensures
        r as int == spec_le_prefix_i64(s@),
{
    if s.len() < 8 {
        return 0;
    }
    let mut acc: u64 = 0;
    proof {
        assert(s@.subrange(8, 8) =~= Seq::<u8>::empty());
    }
    let mut i: usize = 8;
    while i > 0
        invariant
            0 <= i <= 8,
            s@.len() >= 8,
            acc as int == spec_le_val(s@.subrange(i as int, 8)),
            acc < pow256((8 - i) as nat),
        decreases i,
    {
        let ghost acc_pre: int = acc as int;
        let ghost i_pre: int = i as int;
        proof {
            lemma_pow256_monotonic((8 - i_pre) as nat, 7);
            assert(pow256(7) == 0x100_0000_0000_0000) by {
                reveal_with_fuel(pow256, 8);
            }
        }
        acc = acc * 256 + (s[i - 1] as u64);
        i = i - 1;
        proof {
            assert(s@.subrange(i as int, 8).drop_first() =~= s@.subrange(i_pre, 8));
            assert(spec_le_val(s@.subrange(i as int, 8))
                == s@[i as int] + 256 * spec_le_val(s@.subrange(i_pre, 8)));
            assert(pow256((8 - i) as nat) == 256 * pow256((8 - i_pre) as nat));
        }
    }
    proof {
        assert(s@.subrange(0, 8) =~= s@.subrange(0int, 8));
    }
    i64_reinterpret(acc)
}

/// A copy of a byte string with the same content.
pub fn clone_bytes(v: &Vec<u8>) -> (r: Vec<u8>)
    ensures
        r@ == v@,
{
    let r = v.clone();
    proof {
        assert forall|i: int| 0 <= i < r@.len() implies r@[i] == v@[i] by {
            assert(cloned::<u8>(v@[i], r@[i]));
        }
        assert(r@ =~= v@);
    }
    r
}

/// The signed value with the same 64-bit pattern as `h`.
pub fn i64_reinterpret(h: u64) -> (r: i64)
    ensures
        r as int == i64_of_u64val(h as int),
{
    if h <= 0x7fff_ffff_ffff_ffff {
        h as i64
    } else {
        let y: u64 = u64::MAX - h;
        -(y as i64) - 1
    }
}

/// 256 raised to `n`.
pub open spec fn pow256(n: nat) -> int
    decreases n,
{
    if n == 0 {
        1
    } else {
        256 * pow256((n - 1) as nat)
    }
}

pub proof fn lemma_pow256_pos(n: nat)
    ensures
        pow256(n) >= 1,
    decreases n,
{
    if n > 0 {
        lemma_pow256_pos((n - 1) as nat);
    }
}

pub proof fn lemma_pow256_monotonic(m: nat, n: nat)
    requires
        m <= n,
    ensures
        pow256(m) <= pow256(n),
        pow256(m) >= 1,
    decreases n,
{
    lemma_pow256_pos(m);
    if m < n {
        lemma_pow256_monotonic(m, (n - 1) as nat);
    }
}

proof fn lemma_le_bytes_len(v: int, n: nat)
    ensures
        spec_le_bytes(v, n).len() == n,
    decreases n,
{
    if n > 0 {
        lemma_le_bytes_len(v / 256, (n - 1) as nat);
    }
}

proof fn lemma_le_val_of_le_bytes(v: int, n: nat)
    requires
        0 <= v < pow256(n),
    ensures
        spec_le_val(spec_le_bytes(v, n)) == v,
    decreases n,
{
    if n == 0 {
    } else {
        lemma_pow256_pos((n - 1) as nat);
        lemma_le_val_of_le_bytes(v / 256, (n - 1) as nat);
        assert((seq![(v % 256) as u8] + spec_le_bytes(v / 256, (n - 1) as nat)).drop_first()
            =~= spec_le_bytes(v / 256, (n - 1) as nat));
    }
}

/// The fixed-width row codec round-trips: reading back the 8 little-endian
/// bytes of a signed value yields that value.
pub proof fn lemma_le64_round_trip(x: i64)
    ensures
        spec_le_prefix_i64(spec_le64(x)) == x,
{
    assert(pow256(8) == 0x1_0000_0000_0000_0000) by {
        reveal_with_fuel(pow256, 9);
    }
    lemma_le_val_of_le_bytes(u64_of_i64(x), 8);
    lemma_le_bytes_len(u64_of_i64(x), 8);
    assert(spec_le64(x).subrange(0, 8) =~= spec_le64(x));
}

/// Minimal-length little-endian two's-complement bytes of a non-negative
/// value; 0 encodes to the empty string.
pub fn i64_to_min_bytes(v: i64) -> (r: Vec<u8>)
    requires
        v >= 0,
    ensures
        r@ == spec_min_bytes(v as int),
{
    let mut out: Vec<u8> = Vec::new();
    proof {
        assert(Seq::<u8>::empty() + spec_min_le_pos(v as int) =~= spec_min_le_pos(v as int));
    }
    let mut u: i64 = v;
    while u > 0
        invariant
            u >= 0,
            spec_min_le_pos(v as int) == out@ + spec_min_le_pos(u as int),
        decreases u,
    {
        let ghost u_pre: int = u as int;
        let ghost out_pre: Seq<u8> = out@;
        out.push((u % 256) as u8);
        u = u / 256;
        proof {
            assert(spec_min_le_pos(u_pre)
                == seq![(u_pre % 256) as u8] + spec_min_le_pos(u_pre / 256));
            assert(out_pre + spec_min_le_pos(u_pre) =~= out@ + spec_min_le_pos(u as int));
        }
    }
    proof {
        assert(spec_min_le_pos(u as int) == Seq::<u8>::empty());
        assert(out@ + Seq::<u8>::empty() =~= out@);
        assert(out@ == spec_min_le_pos(v as int));
    }
    if out.len() > 0 && out[out.len() - 1] >= 128 {
        out.push(0);
    }
    out
}

/// Appends the decimal ASCII digits of a non-negative value.
pub fn dec_bytes(v: i64, out: &mut Vec<u8>)
    requires
        v >= 0,
    ensures
        final(out)@ == old(out)@ + spec_dec(v as int),
    decreases v,
{
    if v >= 10 {
        dec_bytes(v / 10, out);
    }
    out.push(48 + (v % 10) as u8);
    proof {
        if v < 10 {
            assert(old(out)@ + spec_dec(v as int) =~= old(out)@.push((48 + v) as u8));
        } else {
            assert(old(out)@ + spec_dec(v as int)
                =~= (old(out)@ + spec_dec(v as int / 10)).push((48 + v as int % 10) as u8));
        }
    }
}

/// Lower-case hexadecimal rendering of a byte string, `0x`-prefixed ASCII.
pub fn hex_encode(bytes: &Vec<u8>) -> (r: Vec<u8>)
    ensures
        r@ == seq![48u8, 120u8] + spec_hex_digits(bytes@),
{
    let mut out: Vec<u8> = Vec::new();
    out.push(48);
    out.push(120);
    proof {
        assert(out@ =~= seq![48u8, 120u8] + spec_hex_digits(bytes@.subrange(0, 0)));
    }
    let mut i: usize = 0;
    while i < bytes.len()
        invariant
            0 <= i <= bytes@.len(),
            out@ == seq![48u8, 120u8] + spec_hex_digits(bytes@.subrange(0, i as int)),
        decreases bytes@.len() - i,
    {
        let ghost out_pre: Seq<u8> = out@;
        let b: u8 = bytes[i];
        let hi: u8 = b / 16;
        let lo: u8 = b % 16;
        out.push(if hi < 10 { 48 + hi } else { 87 + hi });
        out.push(if lo < 10 { 48 + lo } else { 87 + lo });
        i = i + 1;
        proof {
            let pre: Seq<u8> = bytes@.subrange(0, i as int - 1);
            let cur: Seq<u8> = bytes@.subrange(0, i as int);
            assert(cur =~= pre.push(b));
            lemma_hex_digits_push(pre, b);
            assert(out@ =~= out_pre.push(spec_hex_digit(b as int / 16)).push(
                spec_hex_digit(b as int % 16),
            ));
            assert(out@ =~= seq![48u8, 120u8] + spec_hex_digits(cur));
        }
    }
    proof {
        assert(bytes@.subrange(0, bytes@.len() as int) =~= bytes@);
    }
    out
}

proof fn lemma_hex_digits_push(s: Seq<u8>, b: u8)
    ensures
        spec_hex_digits(s.push(b)) == spec_hex_digits(s).push(spec_hex_digit(b as int / 16)).push(
            spec_hex_digit(b as int % 16),
        ),
    decreases s.len(),
{
    if s.len() == 0 {
        assert(s.push(b).drop_first() =~= Seq::<u8>::empty());
        assert(s.push(b)[0] == b);
        assert(spec_hex_digits(s.push(b).drop_first()) == Seq::<u8>::empty());
        assert(spec_hex_digits(s) == Seq::<u8>::empty());
        assert(spec_hex_digits(s.push(b))
            == seq![spec_hex_digit(b as int / 16), spec_hex_digit(b as int % 16)]
            + Seq::<u8>::empty());
        assert(spec_hex_digits(s.push(b)) =~= spec_hex_digits(s).push(
            spec_hex_digit(b as int / 16),
        ).push(spec_hex_digit(b as int % 16)));
    } else {
        let t = s.drop_first();
        assert(s.push(b).drop_first() =~= t.push(b));
        lemma_hex_digits_push(t, b);
        let head = seq![spec_hex_digit(s[0] as int / 16), spec_hex_digit(s[0] as int % 16)];
        assert(s.push(b)[0] == s[0]);
        assert(spec_hex_digits(s.push(b)) == head + spec_hex_digits(t.push(b)));
        assert(spec_hex_digits(s) == head + spec_hex_digits(t));
        assert(head + spec_hex_digits(t).push(spec_hex_digit(b as int / 16)).push(
            spec_hex_digit(b as int % 16),
        ) =~= (head + spec_hex_digits(t)).push(spec_hex_digit(b as int / 16)).push(
            spec_hex_digit(b as int % 16),
        ));
    }
}

} // verus!

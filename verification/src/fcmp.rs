//! Exact ordering of IEEE-754 binary64 bit patterns in integer arithmetic.
//!
//! A finite double is `±(significand) · 2^(exponent)`; multiplying every
//! value by `2^1074` turns the comparison into an exact integer one, which
//! sign, exponent and significand decide lexicographically. Strategy
//! decision logic compares prices, indicator values and thresholds through
//! these functions without touching floating point.

use vstd::arithmetic::power2::{
    lemma_pow2_adds, lemma_pow2_pos, lemma_pow2_strictly_increases, pow2,
};
use vstd::prelude::*;

verus! {

/// Whether the bit pattern is a NaN (every comparison with one is false).
pub open spec fn f64_is_nan(bits: u64) -> bool {
    (bits >> 52) & 0x7FF == 0x7FF && bits & 0xFFFFFFFFFFFFF != 0
}

/// The magnitude of a bit pattern, scaled by `2^1074`: an exact integer
/// for every finite double (and beyond every finite value for the
/// infinities, which keeps their ordering).
pub open spec fn f64_mag(e: nat, m: nat) -> int {
    if e == 0 {
        m as int
    } else {
        ((m + 0x10000000000000) * pow2((e - 1) as nat)) as int
    }
}

/// The value of a bit pattern, scaled by `2^1074`: the signed magnitude.
/// Both zeros map to zero, so numeric equality is value equality.
pub open spec fn f64_sortkey(bits: u64) -> int {
    let e = ((bits >> 52) & 0x7FF) as nat;
    let m = (bits & 0xFFFFFFFFFFFFF) as nat;
    if bits >> 63 == 1 {
        -f64_mag(e, m)
    } else {
        f64_mag(e, m)
    }
}

/// `a <= b` as IEEE-754 compares the encoded values: false when either is
/// a NaN, else by the scaled values.
pub open spec fn f64_le(a: u64, b: u64) -> bool {
    !f64_is_nan(a) && !f64_is_nan(b) && f64_sortkey(a) <= f64_sortkey(b)
}

/// `a < b` as IEEE-754 compares the encoded values.
pub open spec fn f64_lt(a: u64, b: u64) -> bool {
    !f64_is_nan(a) && !f64_is_nan(b) && f64_sortkey(a) < f64_sortkey(b)
}

/// The magnitude ordering is exactly the lexicographic ordering of
/// (exponent, significand).
proof fn lemma_mag_lex(e1: nat, m1: nat, e2: nat, m2: nat)
    requires
        m1 < 0x10000000000000,
        m2 < 0x10000000000000,
    ensures
        (f64_mag(e1, m1) <= f64_mag(e2, m2)) <==> (e1 < e2 || (e1 == e2 && m1 <= m2)),
{
    if e1 == e2 {
        if e1 == 0 {
        } else {
            lemma_pow2_pos((e1 - 1) as nat);
            assert((m1 + 0x10000000000000) * pow2((e1 - 1) as nat) <= (m2 + 0x10000000000000)
                * pow2((e1 - 1) as nat) <==> m1 <= m2) by (nonlinear_arith)
                requires
                    pow2((e1 - 1) as nat) >= 1,
            ;
        }
    } else if e1 < e2 {
        lemma_mag_grows(e1, m1, e2, m2);
    } else {
        lemma_mag_grows(e2, m2, e1, m1);
    }
}

/// A smaller exponent gives a strictly smaller magnitude, whatever the
/// significands.
proof fn lemma_mag_grows(e1: nat, m1: nat, e2: nat, m2: nat)
    requires
        m1 < 0x10000000000000,
        m2 < 0x10000000000000,
        e1 < e2,
    ensures
        f64_mag(e1, m1) < f64_mag(e2, m2),
{
    lemma_pow2_pos((e2 - 1) as nat);
    if e1 == 0 {
        assert(f64_mag(e1, m1) < 0x10000000000000);
        assert((m2 + 0x10000000000000) * pow2((e2 - 1) as nat) >= 0x10000000000000)
            by (nonlinear_arith)
            requires
                pow2((e2 - 1) as nat) >= 1,
        ;
    } else {
        // mag1 < 2^53 * 2^(e1-1) = 2^(52 + e1) <= 2^(52 + e2 - 1)
        //      = 2^52 * 2^(e2-1) <= mag2
        lemma_pow2_pos((e1 - 1) as nat);
        lemma_pow2_adds(53, (e1 - 1) as nat);
        lemma_pow2_adds(52, (e2 - 1) as nat);
        if 52 + e1 < 52 + e2 - 1 {
            lemma_pow2_strictly_increases((52 + e1) as nat, (52 + e2 - 1) as nat);
        }
        vstd::arithmetic::power2::lemma2_to64_rest();
        assert((m1 + 0x10000000000000) * pow2((e1 - 1) as nat) < 0x20000000000000 * pow2(
            (e1 - 1) as nat,
        )) by (nonlinear_arith)
            requires
                m1 + 0x10000000000000 < 0x20000000000000,
                pow2((e1 - 1) as nat) >= 1,
        ;
        assert(0x10000000000000 * pow2((e2 - 1) as nat) <= (m2 + 0x10000000000000) * pow2(
            (e2 - 1) as nat,
        )) by (nonlinear_arith)
            requires
                pow2((e2 - 1) as nat) >= 1,
        ;
        assert(pow2((52 + e1) as nat) <= pow2((52 + e2 - 1) as nat));
    }
}

/// A magnitude is non-negative, and zero exactly for a zero encoding.
proof fn lemma_mag_zero(e: nat, m: nat)
    ensures
        f64_mag(e, m) >= 0,
        (f64_mag(e, m) == 0) <==> (e == 0 && m == 0),
{
    if e > 0 {
        lemma_pow2_pos((e - 1) as nat);
        assert((m + 0x10000000000000) * pow2((e - 1) as nat) >= 0x10000000000000)
            by (nonlinear_arith)
            requires
                pow2((e - 1) as nat) >= 1,
        ;
    }
}

/// Whether the bits are a NaN.
pub fn is_nan_bits(bits: u64) -> (r: bool)
    ensures
        r == f64_is_nan(bits),
{
    (bits >> 52) & 0x7FF == 0x7FF && bits & 0xFFFFFFFFFFFFF != 0
}

/// Whether the bits are finite (neither infinity nor NaN).
pub fn is_finite_bits(bits: u64) -> (r: bool)
    ensures
        r == crate::fixed::f64_bits_finite(bits),
{
    (bits >> 52) & 0x7FF != 0x7FF
}

/// Compare the magnitudes of two non-negative encodings by (exponent,
/// significand).
fn mag_le_bits(a: u64, b: u64) -> (r: bool)
    ensures
        r == (f64_mag(
            (((a >> 52) & 0x7FF) as nat),
            ((a & 0xFFFFFFFFFFFFF) as nat),
        ) <= f64_mag((((b >> 52) & 0x7FF) as nat), ((b & 0xFFFFFFFFFFFFF) as nat))),
{
    let ea: u64 = (a >> 52) & 0x7FF;
    let ma: u64 = a & 0xFFFFFFFFFFFFF;
    let eb: u64 = (b >> 52) & 0x7FF;
    let mb: u64 = b & 0xFFFFFFFFFFFFF;
    proof {
        assert(a & 0xFFFFFFFFFFFFF < 0x10000000000000u64) by (bit_vector);
        assert(b & 0xFFFFFFFFFFFFF < 0x10000000000000u64) by (bit_vector);
        lemma_mag_lex(ea as nat, ma as nat, eb as nat, mb as nat);
    }
    ea < eb || (ea == eb && ma <= mb)
}

/// `a <= b` on encoded doubles: false when either is NaN; zeros of both
/// signs compare equal.
pub fn le_bits(a: u64, b: u64) -> (r: bool)
    ensures
        r == f64_le(a, b),
{
    if is_nan_bits(a) || is_nan_bits(b) {
        return false;
    }
    let sa = a >> 63;
    let sb = b >> 63;
    proof {
        lemma_mag_zero((((a >> 52) & 0x7FF) as nat), ((a & 0xFFFFFFFFFFFFF) as nat));
        lemma_mag_zero((((b >> 52) & 0x7FF) as nat), ((b & 0xFFFFFFFFFFFFF) as nat));
        assert(a >> 63 == 0 || a >> 63 == 1) by (bit_vector);
        assert(b >> 63 == 0 || b >> 63 == 1) by (bit_vector);
    }
    if sa == 1 && sb == 0 {
        // non-positive <= non-negative, always
        true
    } else if sa == 0 && sb == 1 {
        // positive <= negative only when both are zeros
        let za = a << 1;
        let zb = b << 1;
        proof {
            assert(a << 1 == 0 ==> (a >> 52) & 0x7FF == 0 && a & 0xFFFFFFFFFFFFF == 0)
                by (bit_vector);
            assert(b << 1 == 0 ==> (b >> 52) & 0x7FF == 0 && b & 0xFFFFFFFFFFFFF == 0)
                by (bit_vector);
            assert((a >> 52) & 0x7FF == 0 && a & 0xFFFFFFFFFFFFF == 0 ==> a << 1 == 0)
                by (bit_vector);
            assert((b >> 52) & 0x7FF == 0 && b & 0xFFFFFFFFFFFFF == 0 ==> b << 1 == 0)
                by (bit_vector);
        }
        za == 0 && zb == 0
    } else if sa == 0 && sb == 0 {
        mag_le_bits(a, b)
    } else {
        mag_le_bits(b, a)
    }
}

/// `a < b` on encoded doubles: false when either is NaN.
pub fn lt_bits(a: u64, b: u64) -> (r: bool)
    ensures
        r == f64_lt(a, b),
{
    if is_nan_bits(a) || is_nan_bits(b) {
        return false;
    }
    !le_bits(b, a)
}

/// `a >= b` on encoded doubles.
pub fn ge_bits(a: u64, b: u64) -> (r: bool)
    ensures
        r == f64_le(b, a),
{
    le_bits(b, a)
}

/// `a > b` on encoded doubles.
pub fn gt_bits(a: u64, b: u64) -> (r: bool)
    ensures
        r == f64_lt(b, a),
{
    lt_bits(b, a)
}

/// Numeric equality of encoded doubles: false when either is NaN; the two
/// zeros compare equal.
pub fn eq_bits(a: u64, b: u64) -> (r: bool)
    ensures
        r == (!f64_is_nan(a) && !f64_is_nan(b) && f64_sortkey(a) == f64_sortkey(b)),
{
    if is_nan_bits(a) || is_nan_bits(b) {
        return false;
    }
    le_bits(a, b) && le_bits(b, a)
}

/// Negate an encoded double by flipping its sign bit (the exact IEEE-754
/// negation; NaN stays NaN).
pub fn neg_bits(a: u64) -> (r: u64)
    ensures
        r == a ^ 0x8000000000000000u64,
        f64_sortkey(r) == -f64_sortkey(a),
        f64_is_nan(r) == f64_is_nan(a),
{
    let r = a ^ 0x8000000000000000u64;
    proof {
        assert((r >> 52) & 0x7FF == (a >> 52) & 0x7FF && r & 0xFFFFFFFFFFFFF == a
            & 0xFFFFFFFFFFFFF && (r >> 63 == 1 <==> a >> 63 == 0)) by (bit_vector)
            requires
                r == a ^ 0x8000000000000000u64,
        ;
        assert(a >> 63 == 0 || a >> 63 == 1) by (bit_vector);
    }
    r
}

} // verus!

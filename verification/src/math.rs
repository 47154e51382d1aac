//! Exact floored multiply-then-divide, and the arithmetic facts the
//! pool's rounding policy rests on.

use vstd::prelude::*;
use vstd::arithmetic::div_mod::lemma_div_is_ordered;
use vstd::arithmetic::div_mod::lemma_div_multiples_vanish;
use vstd::arithmetic::div_mod::lemma_fundamental_div_mod;
use vstd::arithmetic::mul::lemma_mul_inequality;
use vstd::arithmetic::mul::lemma_mul_is_commutative;

verus! {

/// `floor(a * b / c)`, computed without intermediate overflow by
/// widening to 128 bits.
pub fn mul_div_floor(a: u64, b: u64, c: u64) -> (r: u64)
    requires
        c > 0,
        a as int * b as int / c as int <= u64::MAX as int,
    ensures
        r as int == a as int * b as int / c as int,
{
    proof {
        assert(a as int * b as int <= u128::MAX as int) by (nonlinear_arith)
            requires
                a <= u64::MAX,
                b <= u64::MAX,
        ;
    }
    let p: u128 = (a as u128) * (b as u128);
    let q: u128 = p / (c as u128);
    q as u64
}

/// The quotient `a * b / c` cannot exceed `a` when the divisor `c`
/// dominates the factor `b`.
pub proof fn lemma_mul_div_le(a: int, b: int, c: int)
    requires
        0 <= a,
        0 <= b,
        0 < c,
        b <= c,
    ensures
        a * b / c <= a,
{
    lemma_mul_inequality(b, c, a);
    lemma_mul_is_commutative(a, b);
    lemma_mul_is_commutative(a, c);
    lemma_div_is_ordered(a * b, a * c, c);
    lemma_div_multiples_vanish(a, c);
}

/// Flooring never overshoots: the floored quotient, scaled back up by
/// the divisor, stays at or below the dividend.
pub proof fn lemma_div_mul_le(x: int, c: int)
    requires
        0 <= x,
        0 < c,
    ensures
        0 <= x / c,
        (x / c) * c <= x,
{
    lemma_fundamental_div_mod(x, c);
    assert(0 <= x % c);
    assert(0 <= x / c) by (nonlinear_arith)
        requires
            0 <= x,
            0 < c,
    ;
    lemma_mul_is_commutative(x / c, c);
}

/// The round-trip bound behind redeeming freshly minted shares: if the
/// `m` shares minted for a contribution of `a` satisfy `m * b <= a * s`
/// (they always do under flooring), then redeeming those `m` shares from
/// the grown pool pays out at most `a`.
pub proof fn lemma_round_trip_amount(b: int, s: int, a: int, m: int)
    requires
        0 <= b,
        0 <= s,
        0 < a,
        0 <= m,
        0 < s + m,
        m * b <= a * s,
    ensures
        m * (b + a) / (s + m) <= a,
{
    assert(m * (b + a) <= a * (s + m)) by (nonlinear_arith)
        requires
            m * b <= a * s,
            0 <= m,
            0 < a,
    ;
    lemma_div_is_ordered(m * (b + a), a * (s + m), s + m);
    lemma_mul_is_commutative(a, s + m);
    lemma_div_multiples_vanish(a, s + m);
}

/// A partial redemption leaves the pool well formed: with `r * s <= x * b`
/// (the floored payout) the remaining balance still covers the remaining
/// supply, and the per-share value does not drop.
pub proof fn lemma_partial_redeem(b: int, s: int, x: int, r: int)
    requires
        0 < s,
        s <= b,
        0 < x,
        x < s,
        0 <= r,
        r <= b,
        r * s <= x * b,
    ensures
        b - r >= s - x,
        b * (s - x) <= (b - r) * s,
{
    assert(b * (s - x) <= (b - r) * s) by (nonlinear_arith)
        requires
            r * s <= x * b,
    ;
    assert((s - x) * s <= (b - r) * s) by (nonlinear_arith)
        requires
            b * (s - x) <= (b - r) * s,
            s <= b,
            x < s,
    ;
    assert(b - r >= s - x) by (nonlinear_arith)
        requires
            (s - x) * s <= (b - r) * s,
            0 < s,
    ;
}

/// Comparison of per-share values without division: transitivity. With
/// positive supplies, `v1/s1 <= v2/s2` and `v2/s2 <= v3/s3` (stated
/// cross-multiplied) give `v1/s1 <= v3/s3`.
pub proof fn lemma_ratio_le_transitive(
    v1: int,
    s1: int,
    v2: int,
    s2: int,
    v3: int,
    s3: int,
)
    requires
        0 <= v1,
        0 <= v2,
        0 <= v3,
        0 < s1,
        0 < s2,
        0 < s3,
        v1 * s2 <= v2 * s1,
        v2 * s3 <= v3 * s2,
    ensures
        v1 * s3 <= v3 * s1,
{
    assert((v1 * s2) * s3 <= (v2 * s1) * s3) by (nonlinear_arith)
        requires
            v1 * s2 <= v2 * s1,
            0 < s3,
    ;
    assert((v2 * s3) * s1 <= (v3 * s2) * s1) by (nonlinear_arith)
        requires
            v2 * s3 <= v3 * s2,
            0 < s1,
    ;
    assert((v1 * s3) * s2 <= (v3 * s1) * s2) by (nonlinear_arith)
        requires
            (v1 * s2) * s3 <= (v2 * s1) * s3,
            (v2 * s3) * s1 <= (v3 * s2) * s1,
    ;
    assert(v1 * s3 <= v3 * s1) by (nonlinear_arith)
        requires
            (v1 * s3) * s2 <= (v3 * s1) * s2,
            0 < s2,
    ;
}

} // verus!

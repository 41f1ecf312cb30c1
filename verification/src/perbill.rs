//! Parts-per-billion arithmetic, computed by `sp_arithmetic::Perbill`.
use vstd::prelude::*;
use frame_support::sp_runtime::Perbill;

verus! {

/// The number of parts in a whole `Perbill`.
pub const PERBILL_ACCURACY: u32 = 1_000_000_000;

/// `Perbill::from_rational(p, q)` in parts: `p / q` rounded down, or a whole when `q` is zero or
/// `p > q`.
pub open spec fn from_rational_parts(p: u128, q: u128) -> int {
    if q == 0 || p > q {
        PERBILL_ACCURACY as int
    } else {
        (PERBILL_ACCURACY as int * p) / (q as int)
    }
}

/// `Perbill::from_parts(parts) * x`: `x * parts / 10^9`, rounded to the nearest integer with ties
/// going down, computed without overflow as `(x / 10^9) * parts` plus the rounded share of the
/// remainder.
pub open spec fn mul_parts(parts: u32, x: u128) -> int {
    let m = PERBILL_ACCURACY as int;
    let rem = (x as int) % m;
    let c = rem * parts;
    ((x as int) / m) * parts + c / m + if c % m > m / 2 { 1int } else { 0int }
}

/// `Perbill::from_rational` never yields more than a whole.
pub proof fn lemma_from_rational_parts_bounded(p: u128, q: u128)
    ensures
        0 <= from_rational_parts(p, q) <= PERBILL_ACCURACY,
{
    if !(q == 0 || p > q) {
        let m = PERBILL_ACCURACY as int;
        assert(0 <= (m * p) / (q as int) <= m) by (nonlinear_arith)
            requires
                0 <= p <= q,
                q > 0,
                m > 0,
        ;
    }
}

/// A share of at most a whole never exceeds what it is a share of.
pub proof fn lemma_mul_parts_bounded(parts: u32, x: u128)
    requires
        parts <= PERBILL_ACCURACY,
    ensures
        0 <= mul_parts(parts, x) <= x,
{
    let m = PERBILL_ACCURACY as int;
    let xi = x as int;
    let p = parts as int;
    let q = xi / m;
    let rem = xi % m;
    let c = rem * p;
    assert(xi == q * m + rem && 0 <= rem < m && q >= 0) by (nonlinear_arith)
        requires
            m > 0,
            xi >= 0,
            q == xi / m,
            rem == xi % m,
    ;
    assert(0 <= q * p <= q * m) by (nonlinear_arith)
        requires
            0 <= p <= m,
            q >= 0,
    ;
    assert(0 <= c <= rem * m) by (nonlinear_arith)
        requires
            0 <= p <= m,
            rem >= 0,
            c == rem * p,
    ;
    let f = c / m;
    assert(0 <= f <= rem && c == f * m + c % m && 0 <= c % m < m) by (nonlinear_arith)
        requires
            0 <= c <= rem * m,
            m > 0,
            f == c / m,
    ;
    if f == rem && rem > 0 {
        assert(c % m == 0) by (nonlinear_arith)
            requires
                c == f * m + c % m,
                f == rem,
                c <= rem * m,
                0 <= c % m < m,
        ;
    }
}

/// A whole share of `x` is `x`.
pub proof fn lemma_mul_whole(x: u128)
    ensures
        mul_parts(PERBILL_ACCURACY, x) == x,
{
    let m = PERBILL_ACCURACY as int;
    let xi = x as int;
    let q = xi / m;
    let rem = xi % m;
    assert(xi == q * m + rem && 0 <= rem < m) by (nonlinear_arith)
        requires
            m > 0,
            xi >= 0,
            q == xi / m,
            rem == xi % m,
    ;
    assert((rem * m) / m == rem && (rem * m) % m == 0) by (nonlinear_arith)
        requires
            m > 0,
            rem >= 0,
    ;
}

/// A contribution that is all of what remains unclaimed is a whole.
pub proof fn lemma_from_rational_whole(p: u128)
    ensures
        from_rational_parts(p, p) == PERBILL_ACCURACY,
{
    if p != 0 {
        let m = PERBILL_ACCURACY as int;
        assert((m * p) / (p as int) == m) by (nonlinear_arith)
            requires
                p > 0,
        ;
    }
}

/// Calls `Perbill::from_rational(p, q)` and returns its parts. As the source of
/// `PerThing::from_rational` shows, `q == 0` or `p > q` give a whole, and otherwise the result is
/// `10^9 * p / q` rounded down (computed exactly in 256 bits).
#[verifier::external_body]
pub(crate) fn perbill_from_rational(p: u128, q: u128) -> (parts: u32)
    ensures
        parts == from_rational_parts(p, q),
{
    Perbill::from_rational(p, q).deconstruct()
}

/// Calls `Perbill::from_parts(parts) * x`. As the source of `overflow_prune_mul` and
/// `rational_mul_correction` (rounding `NearestPrefDown`) shows, the result is `mul_parts(parts, x)`.
#[verifier::external_body]
pub(crate) fn perbill_mul(parts: u32, x: u128) -> (r: u128)
    requires
        parts <= PERBILL_ACCURACY,
    ensures
        r == mul_parts(parts, x),
{
    Perbill::from_parts(parts) * x
}

} // verus!

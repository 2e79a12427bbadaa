//! Gas-parameter arithmetic shared by every on-chain write.
//!
//! A write call chooses its gas limit from an estimate that may have failed
//! (falling back to a documented constant) and scales limits and prices by a
//! basis-point multiplier, truncating. Failed readings never propagate: the
//! fallback silently takes their place.

use vstd::prelude::*;

verus! {

use crate::BASIS_POINT;

/// The value an optional on-chain reading yields once the documented
/// fallback has been substituted for a failed call.
pub open spec fn or_default_spec(reading: Option<u128>, fallback: u128) -> u128 {
    match reading {
        Some(v) => v,
        None => fallback,
    }
}

/// Substitute the documented fallback for a reading whose call failed.
pub fn or_default(reading: Option<u128>, fallback: u128) -> (r: u128)
    ensures
        r == or_default_spec(reading, fallback),
{
    match reading {
        Some(v) => v,
        None => fallback,
    }
}

/// Basis-point scaling exactly as the chain arithmetic performs it:
/// multiply by the multiplier, then divide by 10000, truncating.
pub open spec fn scale_bps_spec(base: u128, bps: u64) -> int {
    (base * bps) / (BASIS_POINT as int)
}

/// Scale `base` by `bps` basis points with truncating integer division.
///
/// The caller rules out overflow of the product; an overflow here is a
/// fatal condition, never a value to round or clamp.
pub fn scale_bps(base: u128, bps: u64) -> (r: u128)
    requires
        base * bps <= u128::MAX,
    ensures
        r == scale_bps_spec(base, bps),
{
    (base * (bps as u128)) / (BASIS_POINT as u128)
}

/// A gas limit built from a failed estimate never falls below the
/// documented fallback constant, even after margin scaling, as long as the
/// margin is at least one whole unit (10000 basis points).
pub proof fn lemma_gas_limit_at_least_fallback(reading: Option<u128>, fallback: u128, margin_bps: u64)
    requires
        reading is None,
        margin_bps >= BASIS_POINT,
    ensures
        scale_bps_spec(or_default_spec(reading, fallback), margin_bps) >= fallback,
{
    let b = fallback as int;
    let d = BASIS_POINT as int;
    vstd::arithmetic::mul::lemma_mul_inequality(d, margin_bps as int, b);
    assert(b * d <= b * margin_bps) by {
        vstd::arithmetic::mul::lemma_mul_is_commutative(d, b);
        vstd::arithmetic::mul::lemma_mul_is_commutative(margin_bps as int, b);
    }
    vstd::arithmetic::div_mod::lemma_div_is_ordered(b * d, b * margin_bps, d);
    assert((b * d) / d == b) by {
        vstd::arithmetic::div_mod::lemma_div_multiples_vanish(b, d);
        vstd::arithmetic::mul::lemma_mul_is_commutative(d, b);
    }
}

} // verus!

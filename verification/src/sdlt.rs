//! The SDLT ladder: a piecewise-linear, band-based tax on a purchase price.
//!
//! A property value is a number of pence; the tax comes back in centipence
//! (hundredths of a penny), so that the marginal percentages are exact and
//! nothing is rounded before presentation. Presentation rounds centipence to
//! pence, half away from zero.

use vstd::prelude::*;

verus! {

/// Band edges of the residential ladder, in pence.
pub const EDGE_A: u64 = 12_500_000; // £125,000
pub const EDGE_B: u64 = 25_000_000; // £250,000
pub const EDGE_C: u64 = 92_500_000; // £925,000
pub const EDGE_D: u64 = 150_000_000; // £1,500,000

/// Largest property value, in pence, that the calculator accepts; keeps
/// every intermediate product inside `u64`.
pub const MAX_VALUE_PENCE: u64 = 1_000_000_000_000_000_000;

/// The part of `v` that falls strictly above `lo` and at or below `hi`.
pub open spec fn portion(v: int, lo: int, hi: int) -> int {
    if v <= lo {
        0
    } else if v <= hi {
        v - lo
    } else {
        hi - lo
    }
}

/// The SDLT owed on a value of `v` pence, in centipence: each band's
/// marginal percentage applied to the portion of the price inside it.
pub open spec fn tax_centipence(v: int) -> int {
    2 * portion(v, EDGE_A as int, EDGE_B as int) + 5 * portion(v, EDGE_B as int, EDGE_C as int)
        + 10 * portion(v, EDGE_C as int, EDGE_D as int) + 12 * (
    if v <= EDGE_D as int {
        0
    } else {
        v - EDGE_D as int
    })
}

/// Rounds a non-negative amount of centipence to whole pence, half away
/// from zero.
pub open spec fn centipence_to_pence(cp: int) -> int {
    (cp + 50) / 100
}

/// Computes the SDLT owed on a property value of `value_pence` pence,
/// exactly, in centipence.
pub fn compute(value_pence: u64) -> (tax: u64)
    requires
        value_pence <= MAX_VALUE_PENCE,
    ensures
        tax == tax_centipence(value_pence as int),
{
    let mut tax: u64 = 0;
    if value_pence > EDGE_D {
        tax = tax + (value_pence - EDGE_D) * 12;
    }
    if value_pence > EDGE_C {
        let upper = if value_pence < EDGE_D {
            value_pence
        } else {
            EDGE_D
        };
        tax = tax + (upper - EDGE_C) * 10;
    }
    if value_pence > EDGE_B {
        let upper = if value_pence < EDGE_C {
            value_pence
        } else {
            EDGE_C
        };
        tax = tax + (upper - EDGE_B) * 5;
    }
    if value_pence > EDGE_A {
        let upper = if value_pence < EDGE_B {
            value_pence
        } else {
            EDGE_B
        };
        tax = tax + (upper - EDGE_A) * 2;
    }
    tax
}

/// Rounds a tax amount in centipence to whole pence, half away from zero.
pub fn round_to_pence(cp: u64) -> (p: u64)
    requires
        cp + 50 <= u64::MAX,
    ensures
        p == centipence_to_pence(cp as int),
{
    (cp + 50) / 100
}

/// The tax is never negative.
pub proof fn lemma_tax_nonnegative(v: int)
    requires
        0 <= v,
    ensures
        0 <= tax_centipence(v),
{
}

/// The tax never exceeds the top marginal rate applied to the whole price:
/// in centipence, twelve times the value in pence.
pub proof fn lemma_tax_bounded(v: int)
    requires
        0 <= v,
    ensures
        tax_centipence(v) <= 12 * v,
{
}

/// A higher price never owes less tax.
pub proof fn lemma_tax_monotonic(v1: int, v2: int)
    requires
        0 <= v1 <= v2,
    ensures
        tax_centipence(v1) <= tax_centipence(v2),
{
}

/// The tax grows by at most the top marginal rate of the step: the change
/// over a step of `v2 - v1` pence vanishes as the step does, so the ladder
/// is continuous at every edge.
pub proof fn lemma_tax_continuous(v1: int, v2: int)
    requires
        0 <= v1 <= v2,
    ensures
        tax_centipence(v2) - tax_centipence(v1) <= 12 * (v2 - v1),
{
}

/// Both values lie in one band of the ladder.
pub open spec fn same_band(a: int, v: int) -> bool {
    ||| v <= EDGE_A as int
    ||| (EDGE_A as int <= a && v <= EDGE_B as int)
    ||| (EDGE_B as int <= a && v <= EDGE_C as int)
    ||| (EDGE_C as int <= a && v <= EDGE_D as int)
    ||| EDGE_D as int <= a
}

/// The marginal percentage charged on the pence strictly above `a`.
pub open spec fn marginal_rate(a: int) -> int {
    if a < EDGE_A as int {
        0
    } else if a < EDGE_B as int {
        2
    } else if a < EDGE_C as int {
        5
    } else if a < EDGE_D as int {
        10
    } else {
        12
    }
}

/// Within one band the tax is linear: the difference of the taxes is the
/// band's marginal rate applied to the difference of the prices.
pub proof fn lemma_tax_piecewise_linear(a: int, v: int)
    requires
        0 <= a <= v,
        same_band(a, v),
    ensures
        tax_centipence(v) - tax_centipence(a) == marginal_rate(a) * (v - a),
{
}

} // verus!

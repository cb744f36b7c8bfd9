//! Integer models of the float conversions the launcher relies on:
//! converting a whole number to `f32` or `f64` rounds it to the nearest
//! value with 24 (resp. 53) significant bits, ties to even.

use vstd::prelude::*;

verus! {

/// `2^24`: whole numbers below it convert to `f32` exactly.
pub const F32_EXACT_LIMIT: u64 = 16777216;

/// `2^53`: whole numbers below it convert to `f64` exactly.
pub const F64_EXACT_LIMIT: u64 = 9007199254740992;

/// The smallest power of two `u` such that `x / u < limit`.
pub open spec fn unit_for(x: nat, limit: nat) -> nat
    decreases x,
{
    if limit <= 1 || x < limit {
        1
    } else {
        2 * unit_for(x / 2, limit)
    }
}

/// `x` rounded to a multiple of `unit_for(x, limit)`, to the nearest, ties to
/// the even multiple: the value of `x` in a binary float whose significand
/// holds `log2(limit)` bits.
pub open spec fn round_to_precision(x: nat, limit: nat) -> nat {
    let unit = unit_for(x, limit);
    let q = x / unit;
    let r = x % unit;
    if unit == 1 {
        x
    } else if r * 2 > unit || (r * 2 == unit && q % 2 == 1) {
        (q + 1) * unit
    } else {
        q * unit
    }
}

/// The value of the whole number `x` once converted to `f32`.
pub open spec fn f32_value(x: int) -> int {
    if x >= 0 {
        round_to_precision(x as nat, F32_EXACT_LIMIT as nat) as int
    } else {
        -(round_to_precision((-x) as nat, F32_EXACT_LIMIT as nat) as int)
    }
}

/// The value of the whole number `x` once converted to `f64`.
pub open spec fn f64_value(x: nat) -> nat {
    round_to_precision(x, F64_EXACT_LIMIT as nat)
}

proof fn lemma_unit_below_limit(x: nat, limit: nat)
    requires
        x < limit,
    ensures
        unit_for(x, limit) == 1,
{
}

/// `unit_for` is a positive power-of-two scale: it is at least one, and
/// below `limit` numbers keep their value.
pub proof fn lemma_unit_positive(x: nat, limit: nat)
    ensures
        unit_for(x, limit) >= 1,
    decreases x,
{
    if !(limit <= 1 || x < limit) {
        lemma_unit_positive(x / 2, limit);
    }
}

/// Rounds `x` as the conversion to a float with `log2(limit)` significand bits does.
pub fn round_u64(x: u64, limit: u64) -> (r: u128)
    requires
        limit >= 2,
    ensures
        r == round_to_precision(x as nat, limit as nat),
{
    let mut unit: u64 = 1;
    while x / unit >= limit
        invariant
            limit >= 2,
            unit >= 1,
            unit == 1 || unit <= x,
            unit_for(x as nat, limit as nat) == unit * unit_for((x / unit) as nat, limit as nat),
        decreases x / unit,
    {
        let ghost old_unit = unit;
        proof {
            vstd::arithmetic::div_mod::lemma_fundamental_div_mod(x as int, unit as int);
            vstd::arithmetic::div_mod::lemma_mod_pos_bound(x as int, unit as int);
            assert(unit * (x / unit) >= unit * 2) by (nonlinear_arith)
                requires
                    x / unit >= 2,
                    unit >= 1,
            ;
            vstd::arithmetic::div_mod::lemma_div_denominator(x as int, unit as int, 2);
            assert(unit * 2 <= x);
        }
        unit = unit * 2;
        proof {
            let a = unit_for((x / unit) as nat, limit as nat);
            assert(unit_for((x / old_unit) as nat, limit as nat) == 2 * a);
            assert(old_unit * (2 * a) == (old_unit * 2) * a) by (nonlinear_arith);
        }
    }
    proof {
        lemma_unit_below_limit((x / unit) as nat, limit as nat);
    }
    let q = x / unit;
    let rem = x % unit;
    if unit == 1 {
        x as u128
    } else if (rem as u128) * 2 > unit as u128 || ((rem as u128) * 2 == unit as u128 && q % 2 == 1) {
        proof {
            vstd::arithmetic::div_mod::lemma_fundamental_div_mod(x as int, unit as int);
            vstd::arithmetic::div_mod::lemma_mod_pos_bound(x as int, unit as int);
            assert(q * unit <= x) by (nonlinear_arith)
                requires
                    x == unit * q + rem,
                    rem >= 0,
            ;
            assert((q + 1) * unit <= 2 * 0x1_0000_0000_0000_0000) by (nonlinear_arith)
                requires
                    q * unit <= x,
                    unit <= x,
                    x < 0x1_0000_0000_0000_0000,
            ;
        }
        (q as u128 + 1) * (unit as u128)
    } else {
        proof {
            vstd::arithmetic::div_mod::lemma_fundamental_div_mod(x as int, unit as int);
            vstd::arithmetic::div_mod::lemma_mod_pos_bound(x as int, unit as int);
        }
        (q as u128) * (unit as u128)
    }
}

/// The value of the whole number `x` once converted to `f32` (as `x as f32` does).
pub fn f32_round(x: i64) -> (r: i128)
    ensures
        r == f32_value(x as int),
{
    if x >= 0 {
        let rounded = round_u64(x as u64, F32_EXACT_LIMIT);
        proof {
            lemma_round_bounded(x as nat, F32_EXACT_LIMIT as nat);
        }
        rounded as i128
    } else {
        let magnitude: u64 = (-(x as i128)) as u64;
        let rounded = round_u64(magnitude, F32_EXACT_LIMIT);
        proof {
            lemma_round_bounded(magnitude as nat, F32_EXACT_LIMIT as nat);
        }
        -(rounded as i128)
    }
}

/// Rounding never more than doubles a number.
pub proof fn lemma_round_bounded(x: nat, limit: nat)
    requires
        limit >= 2,
    ensures
        round_to_precision(x, limit) <= 2 * x,
{
    let unit = unit_for(x, limit);
    lemma_unit_positive(x, limit);
    lemma_unit_at_most(x, limit);
    let q = x / unit;
    vstd::arithmetic::div_mod::lemma_fundamental_div_mod(x as int, unit as int);
    vstd::arithmetic::div_mod::lemma_mod_pos_bound(x as int, unit as int);
    assert(q * unit <= x) by (nonlinear_arith)
        requires
            x == unit * q + x % unit,
            x % unit >= 0,
    ;
    if unit != 1 {
        assert((q + 1) * unit <= 2 * x) by (nonlinear_arith)
            requires
                q * unit <= x,
                unit <= x,
        ;
    }
}

/// The scale is one or at most the number itself.
pub proof fn lemma_unit_at_most(x: nat, limit: nat)
    ensures
        unit_for(x, limit) == 1 || unit_for(x, limit) <= x,
    decreases x,
{
    if !(limit <= 1 || x < limit) {
        lemma_unit_at_most(x / 2, limit);
        lemma_unit_positive(x / 2, limit);
    }
}

} // verus!

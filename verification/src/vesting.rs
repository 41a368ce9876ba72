//! The linear vesting formula, computed exactly.

use vstd::prelude::*;
use vstd::arithmetic::div_mod::{
    lemma_div_is_ordered, lemma_div_multiples_vanish, lemma_div_pos_is_pos,
    lemma_fundamental_div_mod, lemma_hoist_over_denominator, lemma_mod_bound,
};
use vstd::arithmetic::mul::lemma_mul_inequality;

verus! {

/// The part of `total` that has vested once `elapsed` of a schedule that runs
/// for `duration` has passed: all of it from `duration` on, and before that
/// the share `total * elapsed / duration`, rounded down.
pub open spec fn vested_portion(total: int, elapsed: int, duration: int) -> int {
    if elapsed >= duration {
        total
    } else {
        (total * elapsed) / duration
    }
}

/// Splitting `total` into whole multiples of `duration` and a remainder does
/// not change the rounded share, so the share can be computed in two parts
/// that each stay small.
pub proof fn lemma_share_by_parts(total: int, elapsed: int, duration: int)
    requires
        0 <= total,
        0 <= elapsed,
        0 < duration,
    ensures
        (total * elapsed) / duration == (total / duration) * elapsed + ((total % duration)
            * elapsed) / duration,
{
    let q = total / duration;
    let r = total % duration;
    lemma_fundamental_div_mod(total, duration);
    assert(total * elapsed == r * elapsed + (q * elapsed) * duration) by (nonlinear_arith)
        requires
            total == duration * q + r,
    ;
    lemma_hoist_over_denominator(r * elapsed, q * elapsed, duration as nat);
}

/// Before the end of the schedule the vested part is between nothing and all.
pub proof fn lemma_vested_portion_bounds(total: int, elapsed: int, duration: int)
    requires
        0 <= total,
        0 <= elapsed,
        0 < duration,
    ensures
        0 <= vested_portion(total, elapsed, duration) <= total,
        elapsed == 0 ==> vested_portion(total, elapsed, duration) == 0,
{
    if elapsed < duration {
        assert(0 <= total * elapsed <= duration * total) by (nonlinear_arith)
            requires
                0 <= total,
                0 <= elapsed < duration,
        ;
        lemma_div_pos_is_pos(total * elapsed, duration);
        lemma_div_is_ordered(total * elapsed, duration * total, duration);
        lemma_div_multiples_vanish(total, duration);
        if elapsed == 0 {
            assert(total * elapsed == 0) by (nonlinear_arith)
                requires
                    elapsed == 0,
            ;
        }
    }
}

/// What has vested never shrinks as time passes.
pub proof fn lemma_vested_portion_monotonic(total: int, earlier: int, later: int, duration: int)
    requires
        0 <= total,
        0 <= earlier <= later,
        0 < duration,
    ensures
        vested_portion(total, earlier, duration) <= vested_portion(total, later, duration),
{
    if later >= duration {
        lemma_vested_portion_bounds(total, earlier, duration);
    } else {
        lemma_mul_inequality(earlier, later, total);
        assert(total * earlier <= total * later) by (nonlinear_arith)
            requires
                earlier * total <= later * total,
        ;
        lemma_div_is_ordered(total * earlier, total * later, duration);
    }
}

/// Computes the vested part of `total` without ever forming the product
/// `total * elapsed`, which need not fit in 128 bits.
pub fn vested_amount(total: i128, elapsed: u64, duration: u64) -> (vested: i128)
    requires
        0 <= total,
        0 < duration,
    ensures
        vested == vested_portion(total as int, elapsed as int, duration as int),
        0 <= vested <= total,
{
    proof {
        lemma_vested_portion_bounds(total as int, elapsed as int, duration as int);
    }
    if elapsed >= duration {
        return total;
    }
    let whole: u128 = total as u128;
    let span: u128 = duration as u128;
    let passed: u128 = elapsed as u128;
    let quotient: u128 = whole / span;
    let remainder: u128 = whole % span;
    proof {
        lemma_share_by_parts(total as int, elapsed as int, duration as int);
        lemma_fundamental_div_mod(total as int, duration as int);
        lemma_mod_bound(total as int, duration as int);
        lemma_div_pos_is_pos(total as int, duration as int);
        assert(remainder * passed <= 0xFFFF_FFFF_FFFF_FFFF * 0xFFFF_FFFF_FFFF_FFFF)
            by (nonlinear_arith)
            requires
                remainder <= 0xFFFF_FFFF_FFFF_FFFF,
                passed <= 0xFFFF_FFFF_FFFF_FFFF,
        ;
        assert(0 <= quotient * passed <= whole) by (nonlinear_arith)
            requires
                whole == span * quotient + remainder,
                0 <= remainder,
                0 <= quotient,
                0 <= passed < span,
        ;
        lemma_div_pos_is_pos(remainder * passed, duration as int);
    }
    let rest: u128 = (remainder * passed) / span;
    let vested: u128 = quotient * passed + rest;
    vested as i128
}

} // verus!

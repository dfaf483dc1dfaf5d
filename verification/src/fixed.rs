// Fixed-point arithmetic: micro-unit integers with truncating division.

use vstd::prelude::*;
use vstd::arithmetic::div_mod::{lemma_div_is_ordered, lemma_div_nonincreasing, lemma_div_pos_is_pos};

verus! {

/// How many fixed-point units make one whole unit: values count micro-units.
pub const SCALE: i128 = 1_000_000;

/// Largest magnitude accepted for an input quantity (one million whole units).
/// The bound keeps every intermediate product of the formulas inside `i128`.
pub const MAX_INPUT: i128 = 1_000_000_000_000;

/// Magnitude of an integer.
pub open spec fn abs_val(a: int) -> int {
    if a < 0 {
        -a
    } else {
        a
    }
}

/// An input quantity the calculator accepts: at most a million whole units
/// in magnitude.
pub open spec fn in_range(x: int) -> bool {
    -MAX_INPUT <= x <= MAX_INPUT
}

/// Signed division truncating toward zero, the rounding every formula uses.
pub open spec fn div_trunc(a: int, b: int) -> int
    recommends
        b != 0,
{
    if (a < 0) == (b < 0) {
        abs_val(a) / abs_val(b)
    } else {
        -(abs_val(a) / abs_val(b))
    }
}

/// The magnitude of a truncated quotient is bounded by the bound on the
/// dividend divided by the divisor.
pub proof fn lemma_div_trunc_bound(a: int, b: int, m: int)
    requires
        b != 0,
        abs_val(a) <= m,
    ensures
        abs_val(div_trunc(a, b)) <= m / abs_val(b),
        abs_val(div_trunc(a, b)) <= m,
{
    lemma_div_pos_is_pos(abs_val(a), abs_val(b));
    lemma_div_is_ordered(abs_val(a), m, abs_val(b));
    lemma_div_nonincreasing(abs_val(a), abs_val(b));
    lemma_div_nonincreasing(m, abs_val(b));
}

/// The product of two bounded factors is bounded by the product of the bounds.
pub proof fn lemma_mul_bound(a: int, b: int, ma: int, mb: int)
    requires
        -ma <= a <= ma,
        -mb <= b <= mb,
    ensures
        -(ma * mb) <= a * b <= ma * mb,
{
    assert(-(ma * mb) <= a * b <= ma * mb) by (nonlinear_arith)
        requires
            -ma <= a <= ma,
            -mb <= b <= mb,
    ;
}

/// Truncating signed division on machine integers, exactly `div_trunc`.
pub fn div_trunc_i128(a: i128, b: i128) -> (r: i128)
    requires
        b != 0,
        a > i128::MIN,
        b > i128::MIN,
    ensures
        r == div_trunc(a as int, b as int),
{
    let ma: u128 = if a < 0 {
        (-a) as u128
    } else {
        a as u128
    };
    let mb: u128 = if b < 0 {
        (-b) as u128
    } else {
        b as u128
    };
    proof {
        assert(ma == abs_val(a as int));
        assert(mb == abs_val(b as int));
    }
    let mq: u128 = ma / mb;
    proof {
        lemma_div_pos_is_pos(ma as int, mb as int);
        lemma_div_nonincreasing(ma as int, mb as int);
        assert(mq == abs_val(a as int) / abs_val(b as int));
        assert(mq <= ma);
    }
    if (a < 0) != (b < 0) {
        -(mq as i128)
    } else {
        mq as i128
    }
}

} // verus!

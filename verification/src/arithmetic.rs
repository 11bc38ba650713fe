//! Facts about products and rounded-down quotients that the accrual
//! arithmetic rests on.

use vstd::arithmetic::div_mod::lemma_div_is_ordered;
use vstd::arithmetic::div_mod::lemma_div_multiples_vanish;
use vstd::arithmetic::div_mod::lemma_fundamental_div_mod;
use vstd::prelude::*;

verus! {

/// The product of two bounded factors is bounded by the product of the
/// bounds.
pub proof fn product_is_bounded(a: int, b: int, bound_a: int, bound_b: int)
    by (nonlinear_arith)
    requires
        -bound_a <= a <= bound_a,
        -bound_b <= b <= bound_b,
    ensures
        -(bound_a * bound_b) <= a * b <= bound_a * bound_b,
{
}

/// A product of two factors that are not negative is not negative, and
/// grows with either factor.
pub proof fn product_is_monotonic(a: int, b: int, c: int, d: int)
    by (nonlinear_arith)
    requires
        0 <= a <= c,
        0 <= b <= d,
    ensures
        0 <= a * b <= c * d,
{
}

/// The whole cycles of a span of time, taken at full length, fit the span.
pub proof fn whole_cycles_fit(span: int, length: int)
    requires
        0 <= span,
        0 < length,
    ensures
        0 <= span / length <= span,
        length * (span / length) <= span,
{
    lemma_fundamental_div_mod(span, length);
    lemma_div_is_ordered(0, span, length);
    assert(0int / length == 0);
    assert(span / length <= span) by (nonlinear_arith)
        requires
            0 <= span,
            0 < length,
            span == length * (span / length) + (span % length),
            0 <= span % length,
            0 <= span / length,
    ;
}

/// A negative amount holds less than no whole parts of a positive size.
pub proof fn negative_quotient(amount: int, size: int)
    requires
        amount < 0,
        0 < size,
    ensures
        amount / size < 0,
{
    lemma_fundamental_div_mod(amount, size);
    assert(amount / size < 0) by (nonlinear_arith)
        requires
            amount < 0,
            0 < size,
            amount == size * (amount / size) + (amount % size),
            0 <= amount % size,
    ;
}

/// Earning no more than the yield of the whole cycles of a span takes no
/// longer than the span.
pub proof fn earning_time_fits(span: int, length: int, rate: int, units: int)
    requires
        0 <= span,
        0 < length,
        0 < rate,
        0 <= units <= (span / length) * rate,
    ensures
        0 <= length * units / rate <= span,
{
    let cycles = span / length;
    whole_cycles_fit(span, length);
    product_is_monotonic(length, units, length, cycles * rate);
    assert(length * (cycles * rate) == (length * cycles) * rate) by (nonlinear_arith);
    product_is_monotonic(length * cycles, rate, span, rate);
    assert(length * units <= span * rate);
    lemma_div_is_ordered(0, length * units, rate);
    assert(0int / rate == 0);
    lemma_div_is_ordered(length * units, span * rate, rate);
    assert(span * rate == rate * span) by (nonlinear_arith);
    lemma_div_multiples_vanish(span, rate);
}

} // verus!

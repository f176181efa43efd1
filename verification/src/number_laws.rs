//! What the decimal operations do to numbers, told in whole units of the
//! smallest decimal.

use crate::decimal::{aligned, common_scale, difference_of, lemma_normalized, lemma_pow10_positive};
use crate::decimal::{less_than, mantissa_fits, negated, normalized_of, pow10, product_is_exact};
use crate::decimal::{product_of, quotient_is_exact, quotient_of, representable, same_number};
use crate::decimal::{sum_is_exact, sum_of, MANTISSA_LIMIT, MAX_SCALE};
use vstd::prelude::*;

verus! {

/// The number of times the smallest positive decimal goes into `number`.
pub open spec fn units(number: (i128, u32)) -> int {
    number.0 * pow10((MAX_SCALE - number.1) as nat)
}

/// How many of those units make up the number one.
pub open spec fn unit_count() -> int {
    pow10(MAX_SCALE as nat)
}

/// The sum of the two numbers needs no rounding.
pub open spec fn adds_exactly(a: (i128, u32), b: (i128, u32)) -> bool {
    a.0 == 0 || b.0 == 0 || sum_is_exact(a, b)
}

/// The difference of the two numbers needs no rounding.
pub open spec fn subtracts_exactly(a: (i128, u32), b: (i128, u32)) -> bool {
    a.0 == 0 || b.0 == 0 || sum_is_exact(a, negated(b))
}

/// The product of the two numbers needs no rounding.
pub open spec fn multiplies_exactly(a: (i128, u32), b: (i128, u32)) -> bool {
    a.0 == 0 || b.0 == 0 || product_is_exact(a, b)
}

/// The quotient of the two numbers needs no rounding.
pub open spec fn divides_exactly(a: (i128, u32), b: (i128, u32)) -> bool {
    b.0 != 0 && (a.0 == 0 || quotient_is_exact(a, b))
}

/// Powers of ten multiply by adding their exponents.
pub proof fn lemma_pow10_sum(a: nat, b: nat)
    ensures
        pow10(a + b) == pow10(a) * pow10(b),
    decreases a,
{
    if a == 0 {
        assert(1 * pow10(b) == pow10(b)) by (nonlinear_arith);
    } else {
        lemma_pow10_sum((a - 1) as nat, b);
        assert((a + b - 1) as nat == (a - 1) as nat + b);
        let (x, y) = (pow10((a - 1) as nat), pow10(b));
        assert(10 * (x * y) == (10 * x) * y) by (nonlinear_arith);
    }
}

/// The order of decimals is the order of the numbers that they stand for, and
/// so is their equality.
pub proof fn law_order_is_that_of_units(a: (i128, u32), b: (i128, u32))
    requires
        representable(a),
        representable(b),
    ensures
        less_than(a, b) <==> units(a) < units(b),
        same_number(a, b) <==> units(a) == units(b),
{
    let (x, y) = (a.0 as int, b.0 as int);
    let (pa, pb) = (pow10(a.1 as nat), pow10(b.1 as nat));
    let (ra, rb) = (pow10((MAX_SCALE - a.1) as nat), pow10((MAX_SCALE - b.1) as nat));
    let whole = unit_count();
    lemma_pow10_sum(a.1 as nat, (MAX_SCALE - a.1) as nat);
    lemma_pow10_sum(b.1 as nat, (MAX_SCALE - b.1) as nat);
    lemma_pow10_positive(MAX_SCALE as nat);
    lemma_pow10_positive((MAX_SCALE - a.1) as nat);
    lemma_pow10_positive((MAX_SCALE - b.1) as nat);
    assert(a.1 as nat + (MAX_SCALE - a.1) as nat == MAX_SCALE as nat);
    assert(b.1 as nat + (MAX_SCALE - b.1) as nat == MAX_SCALE as nat);
    let factor = ra * rb;
    assert(factor > 0) by (nonlinear_arith)
        requires
            ra >= 1,
            rb >= 1,
            factor == ra * rb,
    ;
    assert((x * pb) * factor == (x * ra) * whole) by (nonlinear_arith)
        requires
            factor == ra * rb,
            whole == pb * rb,
    ;
    assert((y * pa) * factor == (y * rb) * whole) by (nonlinear_arith)
        requires
            factor == ra * rb,
            whole == pa * ra,
    ;
    lemma_scaled_order(x * pb, y * pa, factor);
    lemma_scaled_order(x * ra, y * rb, whole);
}

/// Multiplying by a positive number keeps the order.
proof fn lemma_scaled_order(a: int, b: int, factor: int)
    requires
        factor > 0,
    ensures
        a < b <==> a * factor < b * factor,
        a == b <==> a * factor == b * factor,
{
    assert(a < b ==> a * factor < b * factor) by (nonlinear_arith)
        requires
            factor > 0,
    ;
    assert(b < a ==> b * factor < a * factor) by (nonlinear_arith)
        requires
            factor > 0,
    ;
}

/// A mantissa written with more digits stands for the same number.
proof fn lemma_aligned_units(number: (i128, u32), scale: u32)
    requires
        number.1 <= scale <= MAX_SCALE,
    ensures
        aligned(number, scale) * pow10((MAX_SCALE - scale) as nat) == units(number),
{
    let (first, second) = ((scale - number.1) as nat, (MAX_SCALE - scale) as nat);
    lemma_pow10_sum(first, second);
    assert(first + second == (MAX_SCALE - number.1) as nat);
    let (x, p, q) = (number.0 as int, pow10(first), pow10(second));
    assert((x * p) * q == x * (p * q)) by (nonlinear_arith);
}

/// A decimal of zero stands for zero, and a sign is a sign.
pub proof fn law_sign_is_that_of_units(number: (i128, u32))
    ensures
        units(number) == 0 <==> number.0 == 0,
        units(number) > 0 <==> number.0 > 0,
        units(number) < 0 <==> number.0 < 0,
{
    lemma_pow10_positive((MAX_SCALE - number.1) as nat);
    let (x, p) = (number.0 as int, pow10((MAX_SCALE - number.1) as nat));
    lemma_scaled_order(x, 0, p);
    lemma_scaled_order(0, x, p);
    assert(0 * p == 0) by (nonlinear_arith);
}

/// Where nothing is rounded, a sum stands for the sum of the two numbers.
pub proof fn law_sum_adds(a: (i128, u32), b: (i128, u32))
    requires
        representable(a),
        representable(b),
        adds_exactly(a, b),
    ensures
        sum_of(a, b) is Some,
        representable(sum_of(a, b)->0),
        units(sum_of(a, b)->0) == units(a) + units(b),
{
    law_sign_is_that_of_units(a);
    law_sign_is_that_of_units(b);
    if a.0 != 0 && b.0 != 0 {
        let scale = common_scale(a, b);
        let (x, y) = (aligned(a, scale), aligned(b, scale));
        let p = pow10((MAX_SCALE - scale) as nat);
        lemma_aligned_units(a, scale);
        lemma_aligned_units(b, scale);
        assert((x + y) * p == x * p + y * p) by (nonlinear_arith);
        assert((x + y) as i128 as int == x + y);
    }
}

/// The opposite number stands for the opposite.
pub proof fn law_opposite_negates(number: (i128, u32))
    requires
        representable(number),
    ensures
        representable(negated(number)),
        units(negated(number)) == -units(number),
{
    let (x, p) = (number.0 as int, pow10((MAX_SCALE - number.1) as nat));
    assert((-x) * p == -(x * p)) by (nonlinear_arith);
}

/// Where nothing is rounded, a difference stands for the difference of the two
/// numbers.
pub proof fn law_difference_subtracts(a: (i128, u32), b: (i128, u32))
    requires
        representable(a),
        representable(b),
        subtracts_exactly(a, b),
    ensures
        difference_of(a, b) is Some,
        representable(difference_of(a, b)->0),
        units(difference_of(a, b)->0) == units(a) - units(b),
{
    law_opposite_negates(b);
    law_sum_adds(a, negated(b));
}

/// Where nothing is rounded, a product stands for the product of the two
/// numbers.
pub proof fn law_product_multiplies(a: (i128, u32), b: (i128, u32))
    requires
        representable(a),
        representable(b),
        multiplies_exactly(a, b),
    ensures
        product_of(a, b) is Some,
        representable(product_of(a, b)->0),
        units(product_of(a, b)->0) * unit_count() == units(a) * units(b),
{
    law_sign_is_that_of_units(a);
    law_sign_is_that_of_units(b);
    let (x, y) = (a.0 as int, b.0 as int);
    let (ra, rb) = (pow10((MAX_SCALE - a.1) as nat), pow10((MAX_SCALE - b.1) as nat));
    if a.0 == 0 || b.0 == 0 {
        let zero = (0i128, 0u32);
        law_sign_is_that_of_units(zero);
        let (u, v) = (units(a), units(b));
        assert(u * v == 0) by (nonlinear_arith)
            requires
                u == 0 || v == 0,
        ;
        assert(0 * unit_count() == 0) by (nonlinear_arith);
    } else {
        let scale = (a.1 + b.1) as u32;
        let rest = pow10((MAX_SCALE - scale) as nat);
        let whole = unit_count();
        lemma_pow10_sum((MAX_SCALE - scale) as nat, MAX_SCALE as nat);
        lemma_pow10_sum((MAX_SCALE - a.1) as nat, (MAX_SCALE - b.1) as nat);
        assert((MAX_SCALE - scale) as nat + MAX_SCALE as nat == (MAX_SCALE - a.1) as nat + (
        MAX_SCALE - b.1) as nat);
        assert((x * y) as i128 as int == x * y);
        assert(((x * y) * rest) * whole == (x * ra) * (y * rb)) by (nonlinear_arith)
            requires
                rest * whole == ra * rb,
        ;
    }
}

/// Where nothing is rounded, a quotient times the divisor is the dividend.
pub proof fn law_quotient_divides(a: (i128, u32), b: (i128, u32))
    requires
        representable(a),
        representable(b),
        divides_exactly(a, b),
    ensures
        quotient_of(a, b) is Some,
        units(quotient_of(a, b)->0) * units(b) == units(a) * unit_count(),
{
    law_sign_is_that_of_units(a);
    let (x, y) = (a.0 as int, b.0 as int);
    let (ra, rb) = (pow10((MAX_SCALE - a.1) as nat), pow10((MAX_SCALE - b.1) as nat));
    let whole = unit_count();
    if a.0 == 0 {
        law_sign_is_that_of_units((0i128, 0u32));
        let v = units(b);
        assert(0 * v == 0) by (nonlinear_arith);
        assert(0 * whole == 0) by (nonlinear_arith);
    } else {
        let q = x / y;
        assert(x == q * y) by (nonlinear_arith)
            requires
                y != 0,
                x % y == 0,
                q == x / y,
        ;
        assert(mantissa_fits(q)) by {
            assert(-MANTISSA_LIMIT < q < MANTISSA_LIMIT) by (nonlinear_arith)
                requires
                    x == q * y,
                    y != 0,
                    -MANTISSA_LIMIT < x < MANTISSA_LIMIT,
            ;
        }
        assert(q as i128 as int == q);
        let scale = (a.1 - b.1) as u32;
        let rest = pow10((MAX_SCALE - scale) as nat);
        lemma_pow10_sum((MAX_SCALE - scale) as nat, (MAX_SCALE - b.1) as nat);
        lemma_pow10_sum((MAX_SCALE - a.1) as nat, MAX_SCALE as nat);
        assert((MAX_SCALE - scale) as nat + (MAX_SCALE - b.1) as nat == (MAX_SCALE - a.1) as nat
            + MAX_SCALE as nat);
        assert((q * rest) * (y * rb) == (x * ra) * whole) by (nonlinear_arith)
            requires
                x == q * y,
                rest * rb == ra * whole,
        ;
    }
}

/// Stripping zeros keeps the number.
pub proof fn law_normal_form_keeps_the_number(number: (i128, u32))
    requires
        representable(number),
    ensures
        units(normalized_of(number)) == units(number),
{
    lemma_normalized(number);
    law_order_is_that_of_units(normalized_of(number), number);
}

/// What a list of numbers adds up to, in units.
pub open spec fn units_total(numbers: Seq<(i128, u32)>) -> int
    decreases numbers.len(),
{
    if numbers.len() == 0 {
        0
    } else {
        units_total(numbers.drop_last()) + units(numbers.last())
    }
}

/// None of the numbers is negative, and all of them and their sum can be
/// written with `scale` digits behind the point: nothing is rounded in adding
/// them up.
pub open spec fn add_up_at(numbers: Seq<(i128, u32)>, scale: u32) -> bool {
    &&& scale <= MAX_SCALE
    &&& forall|i: int|
        0 <= i < numbers.len() ==> representable(#[trigger] numbers[i]) && numbers[i].0 >= 0
            && numbers[i].1 <= scale
    &&& units_total(numbers) < MANTISSA_LIMIT * pow10((MAX_SCALE - scale) as nat)
}

/// Numbers that are not negative add up to no less than each part of them.
pub proof fn lemma_add_up_at_parts(numbers: Seq<(i128, u32)>, scale: u32)
    requires
        numbers.len() > 0,
        add_up_at(numbers, scale),
    ensures
        add_up_at(numbers.drop_last(), scale),
        units_total(numbers.drop_last()) >= 0,
        units(numbers.last()) >= 0,
{
    let before = numbers.drop_last();
    assert(numbers.last() == numbers[numbers.len() - 1]);
    law_sign_is_that_of_units(numbers.last());
    assert forall|i: int| 0 <= i < before.len() implies representable(#[trigger] before[i])
        && before[i].0 >= 0 && before[i].1 <= scale by {
        assert(before[i] == numbers[i]);
    }
    lemma_units_total_not_negative(before);
}

/// Numbers that are not negative do not add up to less than zero.
pub proof fn lemma_units_total_not_negative(numbers: Seq<(i128, u32)>)
    requires
        forall|i: int| 0 <= i < numbers.len() ==> (#[trigger] numbers[i]).0 >= 0,
    ensures
        units_total(numbers) >= 0,
    decreases numbers.len(),
{
    if numbers.len() > 0 {
        let before = numbers.drop_last();
        assert forall|i: int| 0 <= i < before.len() implies (#[trigger] before[i]).0 >= 0 by {
            assert(before[i] == numbers[i]);
        }
        lemma_units_total_not_negative(before);
        assert(numbers.last() == numbers[numbers.len() - 1]);
        law_sign_is_that_of_units(numbers.last());
    }
}

/// A larger power of ten is the larger one.
proof fn lemma_pow10_grows(a: nat, b: nat)
    requires
        a <= b,
    ensures
        pow10(a) <= pow10(b),
    decreases b,
{
    lemma_pow10_positive(a);
    if a < b {
        lemma_pow10_grows(a, (b - 1) as nat);
    }
}

/// Two numbers that are not negative and whose sum can be written at a scale
/// add up exactly, to a number that can be written at that scale.
pub proof fn law_sum_at_a_scale_adds(a: (i128, u32), b: (i128, u32), scale: u32)
    requires
        representable(a),
        representable(b),
        a.0 >= 0,
        b.0 >= 0,
        a.1 <= scale,
        b.1 <= scale,
        scale <= MAX_SCALE,
        units(a) + units(b) < MANTISSA_LIMIT * pow10((MAX_SCALE - scale) as nat),
    ensures
        sum_of(a, b) is Some,
        representable(sum_of(a, b)->0),
        (sum_of(a, b)->0).0 >= 0,
        (sum_of(a, b)->0).1 <= scale,
        units(sum_of(a, b)->0) == units(a) + units(b),
{
    law_sign_is_that_of_units(a);
    law_sign_is_that_of_units(b);
    if a.0 != 0 && b.0 != 0 {
        let common = common_scale(a, b);
        let (x, y) = (aligned(a, common), aligned(b, common));
        let (p, q) = (pow10((MAX_SCALE - common) as nat), pow10((MAX_SCALE - scale) as nat));
        lemma_aligned_units(a, common);
        lemma_aligned_units(b, common);
        lemma_pow10_grows((MAX_SCALE - scale) as nat, (MAX_SCALE - common) as nat);
        lemma_pow10_positive((MAX_SCALE - scale) as nat);
        lemma_pow10_positive((common - a.1) as nat);
        lemma_pow10_positive((common - b.1) as nat);
        let (m, n) = (a.0 as int, b.0 as int);
        let (f, g) = (pow10((common - a.1) as nat), pow10((common - b.1) as nat));
        assert(x > 0) by (nonlinear_arith)
            requires
                m > 0,
                f >= 1,
                x == m * f,
        ;
        assert(y > 0) by (nonlinear_arith)
            requires
                n > 0,
                g >= 1,
                y == n * g,
        ;
        let limit = MANTISSA_LIMIT as int;
        assert(x + y < limit) by (nonlinear_arith)
            requires
                x * p + y * p < limit * q,
                x > 0,
                y > 0,
                1 <= q <= p,
        ;
        assert(sum_is_exact(a, b));
    }
    law_sum_adds(a, b);
    law_sign_is_that_of_units(sum_of(a, b)->0);
}

} // verus!

//! Decimal numbers: an integer mantissa and a power of ten that divides it.
//!
//! The arithmetic is that of the `rust_decimal` crate, called on the two
//! integers that make up a value.

use crate::text::{digits_of, zero_padded};
use vstd::prelude::*;

verus! {

/// One more than the largest mantissa: two to the power of ninety-six.
pub const MANTISSA_LIMIT: i128 = 79_228_162_514_264_337_593_543_950_336;

/// The largest number of digits behind the decimal point.
pub const MAX_SCALE: u32 = 28;

/// The number `mantissa / 10^scale`.
#[derive(Clone, Copy, Debug)]
pub struct Decimal {
    mantissa: i128,
    scale: u32,
}

impl View for Decimal {
    type V = (i128, u32);

    closed spec fn view(&self) -> (i128, u32) {
        (self.mantissa, self.scale)
    }
}

/// Ten to the power of `n`.
pub open spec fn pow10(n: nat) -> int
    decreases n,
{
    if n == 0 {
        1
    } else {
        10 * pow10((n - 1) as nat)
    }
}

/// True of a mantissa that one decimal can hold.
pub open spec fn mantissa_fits(mantissa: int) -> bool {
    -MANTISSA_LIMIT < mantissa < MANTISSA_LIMIT
}

/// True of a mantissa and a scale that together make a decimal.
pub open spec fn representable(number: (i128, u32)) -> bool {
    mantissa_fits(number.0 as int) && number.1 <= MAX_SCALE
}

/// The numbers are equal, whatever their scales.
pub open spec fn same_number(a: (i128, u32), b: (i128, u32)) -> bool {
    a.0 * pow10(b.1 as nat) == b.0 * pow10(a.1 as nat)
}

/// The first number is less than the second.
pub open spec fn less_than(a: (i128, u32), b: (i128, u32)) -> bool {
    a.0 * pow10(b.1 as nat) < b.0 * pow10(a.1 as nat)
}

/// The larger of two scales.
pub open spec fn common_scale(a: (i128, u32), b: (i128, u32)) -> u32 {
    if a.1 >= b.1 {
        a.1
    } else {
        b.1
    }
}

/// The mantissa of `number` written with `scale` digits behind the point.
pub open spec fn aligned(number: (i128, u32), scale: u32) -> int {
    number.0 * pow10((scale - number.1) as nat)
}

/// The sum of two numbers at their common scale, where both of them and the
/// sum fit at that scale.
pub open spec fn sum_is_exact(a: (i128, u32), b: (i128, u32)) -> bool {
    let scale = common_scale(a, b);
    &&& mantissa_fits(aligned(a, scale))
    &&& mantissa_fits(aligned(b, scale))
    &&& mantissa_fits(aligned(a, scale) + aligned(b, scale))
}

/// What `rust_decimal` returns for a sum that does not fit at the common
/// scale: the sum with fewer digits, or nothing on overflow.
pub uninterp spec fn rounded_sum(am: i128, asc: u32, bm: i128, bsc: u32) -> Option<(i128, u32)>;

/// What `rust_decimal` returns for a difference that does not fit at the common
/// scale: the difference with fewer digits, or nothing on overflow.
pub uninterp spec fn rounded_difference(am: i128, asc: u32, bm: i128, bsc: u32) -> Option<
    (i128, u32),
>;

/// What `rust_decimal` returns for a product whose mantissa or scale is too
/// large: the product with fewer digits, or nothing on overflow.
pub uninterp spec fn rounded_product(am: i128, asc: u32, bm: i128, bsc: u32) -> Option<(i128, u32)>;

/// What `rust_decimal` returns for a quotient by a number other than zero that
/// the mantissas and the scales alone do not give.
pub uninterp spec fn rounded_quotient(am: i128, asc: u32, bm: i128, bsc: u32) -> Option<
    (i128, u32),
>;

/// What `rust_decimal` reads from a text, if it reads a number there.
pub uninterp spec fn parsed_number(text: Seq<char>) -> Option<(i128, u32)>;

/// The sum of two decimals.
pub open spec fn sum_of(a: (i128, u32), b: (i128, u32)) -> Option<(i128, u32)> {
    if a.0 == 0 {
        Some(b)
    } else if b.0 == 0 {
        Some(a)
    } else if sum_is_exact(a, b) {
        let scale = common_scale(a, b);
        Some(((aligned(a, scale) + aligned(b, scale)) as i128, scale))
    } else {
        rounded_sum(a.0, a.1, b.0, b.1)
    }
}

/// The number with the opposite sign.
pub open spec fn negated(a: (i128, u32)) -> (i128, u32) {
    ((-a.0) as i128, a.1)
}

/// The first decimal less the second.
pub open spec fn difference_of(a: (i128, u32), b: (i128, u32)) -> Option<(i128, u32)> {
    if a.0 == 0 || b.0 == 0 || sum_is_exact(a, negated(b)) {
        sum_of(a, negated(b))
    } else {
        rounded_difference(a.0, a.1, b.0, b.1)
    }
}

/// The product of the mantissas and the sum of the scales make a decimal.
pub open spec fn product_is_exact(a: (i128, u32), b: (i128, u32)) -> bool {
    mantissa_fits(a.0 * b.0) && a.1 + b.1 <= MAX_SCALE
}

/// The product of two decimals.
pub open spec fn product_of(a: (i128, u32), b: (i128, u32)) -> Option<(i128, u32)> {
    if a.0 == 0 || b.0 == 0 {
        Some((0, 0))
    } else if product_is_exact(a, b) {
        Some(((a.0 * b.0) as i128, (a.1 + b.1) as u32))
    } else {
        rounded_product(a.0, a.1, b.0, b.1)
    }
}

/// The second mantissa divides the first, and the second scale is not the
/// larger one.
pub open spec fn quotient_is_exact(a: (i128, u32), b: (i128, u32)) -> bool {
    b.0 != 0 && a.0 as int % b.0 as int == 0 && a.1 >= b.1
}

/// The first decimal divided by the second; nothing for a division by zero.
pub open spec fn quotient_of(a: (i128, u32), b: (i128, u32)) -> Option<(i128, u32)> {
    if b.0 == 0 {
        None
    } else if a.0 == 0 {
        Some((0, 0))
    } else if quotient_is_exact(a, b) {
        Some(((a.0 as int / b.0 as int) as i128, (a.1 - b.1) as u32))
    } else {
        rounded_quotient(a.0, a.1, b.0, b.1)
    }
}

/// The text of a number: the sign, the digits before the point, and as many
/// digits behind it as the scale says.
pub open spec fn text_of(number: (i128, u32)) -> Seq<char> {
    let magnitude = if number.0 < 0 {
        (-number.0) as nat
    } else {
        number.0 as nat
    };
    let digits = zero_padded(digits_of(magnitude), (number.1 + 1) as nat);
    let whole = digits.take(digits.len() - number.1);
    let unsigned = if number.1 == 0 {
        whole
    } else {
        whole + seq!['.'] + digits.skip(digits.len() - number.1)
    };
    if number.0 < 0 {
        seq!['-'] + unsigned
    } else {
        unsigned
    }
}

/// The views of an optional decimal.
pub open spec fn number_in(value: Option<Decimal>) -> Option<(i128, u32)> {
    match value {
        Some(decimal) => Some(decimal@),
        None => None,
    }
}

/// Calls `Decimal`'s `cmp` of `rust_decimal` and hands its three outcomes out
/// as -1, 0 and 1. The order is that of the numbers, whatever their scales.
#[verifier::external_body]
fn outside_order(am: i128, asc: u32, bm: i128, bsc: u32) -> (r: i8)
    requires
        representable((am, asc)),
        representable((bm, bsc)),
    ensures
        r == -1 <==> less_than((am, asc), (bm, bsc)),
        r == 0 <==> same_number((am, asc), (bm, bsc)),
        r == 1 <==> less_than((bm, bsc), (am, asc)),
{
    let a = rust_decimal::Decimal::from_i128_with_scale(am, asc);
    let b = rust_decimal::Decimal::from_i128_with_scale(bm, bsc);
    match a.cmp(&b) {
        std::cmp::Ordering::Less => -1,
        std::cmp::Ordering::Equal => 0,
        std::cmp::Ordering::Greater => 1,
    }
}

/// Calls `rust_decimal`'s `checked_add`. A zero operand gives the other one
/// back. Otherwise, where both numbers and their sum fit at the larger of the
/// two scales, the sum is exact at that scale; what comes of a sum that does
/// not fit there is only named.
#[verifier::external_body]
fn outside_sum(am: i128, asc: u32, bm: i128, bsc: u32) -> (r: Option<(i128, u32)>)
    requires
        representable((am, asc)),
        representable((bm, bsc)),
    ensures
        am == 0 || bm == 0 || sum_is_exact((am, asc), (bm, bsc)) ==> r == sum_of(
            (am, asc),
            (bm, bsc),
        ),
        am != 0 && bm != 0 && !sum_is_exact((am, asc), (bm, bsc)) ==> r == rounded_sum(
            am,
            asc,
            bm,
            bsc,
        ),
        r is Some ==> representable(r->0),
{
    let a = rust_decimal::Decimal::from_i128_with_scale(am, asc);
    let b = rust_decimal::Decimal::from_i128_with_scale(bm, bsc);
    a.checked_add(b).map(|sum| (sum.mantissa(), sum.scale()))
}

/// Calls `rust_decimal`'s `checked_sub`. Where an operand is zero, or both
/// numbers and their difference fit at the larger of the two scales, it gives
/// the sum with the opposite number; what comes of a difference that does not
/// fit there is only named.
#[verifier::external_body]
fn outside_difference(am: i128, asc: u32, bm: i128, bsc: u32) -> (r: Option<(i128, u32)>)
    requires
        representable((am, asc)),
        representable((bm, bsc)),
    ensures
        am == 0 || bm == 0 || sum_is_exact((am, asc), negated((bm, bsc))) ==> r
            == difference_of((am, asc), (bm, bsc)),
        am != 0 && bm != 0 && !sum_is_exact((am, asc), negated((bm, bsc))) ==> r
            == rounded_difference(am, asc, bm, bsc),
        r is Some ==> representable(r->0),
{
    let a = rust_decimal::Decimal::from_i128_with_scale(am, asc);
    let b = rust_decimal::Decimal::from_i128_with_scale(bm, bsc);
    a.checked_sub(b).map(|difference| (difference.mantissa(), difference.scale()))
}

/// Calls `rust_decimal`'s `checked_mul`. A zero operand gives the plain zero.
/// Otherwise, where the product of the mantissas fits and the sum of the
/// scales is not too large, they are the mantissa and the scale of the result;
/// what comes of any other product is only named.
#[verifier::external_body]
fn outside_product(am: i128, asc: u32, bm: i128, bsc: u32) -> (r: Option<(i128, u32)>)
    requires
        representable((am, asc)),
        representable((bm, bsc)),
    ensures
        am == 0 || bm == 0 || product_is_exact((am, asc), (bm, bsc)) ==> r == product_of(
            (am, asc),
            (bm, bsc),
        ),
        am != 0 && bm != 0 && !product_is_exact((am, asc), (bm, bsc)) ==> r == rounded_product(
            am,
            asc,
            bm,
            bsc,
        ),
        r is Some ==> representable(r->0),
{
    let a = rust_decimal::Decimal::from_i128_with_scale(am, asc);
    let b = rust_decimal::Decimal::from_i128_with_scale(bm, bsc);
    a.checked_mul(b).map(|product| (product.mantissa(), product.scale()))
}

/// Calls `rust_decimal`'s `checked_div`. A division by zero gives nothing and
/// zero divided by another number gives the plain zero. Otherwise, where the
/// second mantissa divides the first and the difference of the scales is not
/// negative, the quotient and the difference are the mantissa and the scale of
/// the result; any other quotient is only named.
#[verifier::external_body]
fn outside_quotient(am: i128, asc: u32, bm: i128, bsc: u32) -> (r: Option<(i128, u32)>)
    requires
        representable((am, asc)),
        representable((bm, bsc)),
    ensures
        bm == 0 ==> r is None,
        am == 0 && bm != 0 ==> r == Some((0i128, 0u32)),
        am != 0 && quotient_is_exact((am, asc), (bm, bsc)) ==> r == quotient_of(
            (am, asc),
            (bm, bsc),
        ),
        am != 0 && bm != 0 && !quotient_is_exact((am, asc), (bm, bsc)) ==> r == rounded_quotient(
            am,
            asc,
            bm,
            bsc,
        ),
        r is Some ==> representable(r->0),
{
    let a = rust_decimal::Decimal::from_i128_with_scale(am, asc);
    let b = rust_decimal::Decimal::from_i128_with_scale(bm, bsc);
    a.checked_div(b).map(|quotient| (quotient.mantissa(), quotient.scale()))
}

/// Calls `to_string` on a `rust_decimal` number, which writes all digits of
/// the scale and at least one digit before the point.
#[verifier::external_body]
fn outside_text(mantissa: i128, scale: u32) -> (r: String)
    requires
        representable((mantissa, scale)),
    ensures
        r@ == text_of((mantissa, scale)),
{
    rust_decimal::Decimal::from_i128_with_scale(mantissa, scale).to_string()
}

/// Calls `rust_decimal`'s `from_str`. What it reads is named; the text that
/// the crate itself writes for a number is read back as that number.
#[verifier::external_body]
fn outside_parse(text: &str) -> (r: Option<(i128, u32)>)
    ensures
        r == parsed_number(text@),
        r is Some ==> representable(r->0),
        forall|number: (i128, u32)|
            representable(number) && text@ == #[trigger] text_of(number) ==> r == Some(number),
{
    match text.parse::<rust_decimal::Decimal>() {
        Ok(number) => Some((number.mantissa(), number.scale())),
        Err(_) => None,
    }
}

/// The number without zeros at the end of its digits behind the point.
pub open spec fn normalized_of(number: (i128, u32)) -> (i128, u32)
    decreases number.1,
{
    if number.0 == 0 {
        (0i128, 0u32)
    } else if number.1 > 0 && number.0 as int % 10 == 0 {
        normalized_of(((number.0 as int / 10) as i128, (number.1 - 1) as u32))
    } else {
        number
    }
}

/// Calls `rust_decimal::Decimal::normalize`. It strips the zeros at the end of
/// the digits behind the point, and the scale of a zero.
#[verifier::external_body]
fn outside_normalized(mantissa: i128, scale: u32) -> (r: (i128, u32))
    requires
        representable((mantissa, scale)),
    ensures
        r == normalized_of((mantissa, scale)),
{
    let number = rust_decimal::Decimal::from_i128_with_scale(mantissa, scale).normalize();
    (number.mantissa(), number.scale())
}

/// Normalizing keeps the number, and leaves no zero to strip.
pub proof fn lemma_normalized(number: (i128, u32))
    requires
        representable(number),
    ensures
        representable(normalized_of(number)),
        same_number(normalized_of(number), number),
        normalized_of(number).1 == 0 || normalized_of(number).0 as int % 10 != 0,
    decreases number.1,
{
    if number.0 == 0 {
        assert(0 * pow10(number.1 as nat) == 0) by (nonlinear_arith);
    } else if number.1 > 0 && number.0 as int % 10 == 0 {
        let shorter = ((number.0 as int / 10) as i128, (number.1 - 1) as u32);
        assert(shorter.0 as int * 10 == number.0);
        lemma_normalized(shorter);
        let (x, y) = (shorter.0 as int, number.0 as int);
        let p = pow10(shorter.1 as nat);
        assert(pow10(number.1 as nat) == 10 * p);
        assert(x * (10 * p) == y * p) by (nonlinear_arith)
            requires
                x * 10 == y,
        ;
        lemma_same_number_transitive(normalized_of(number), shorter, number);
    }
}

/// A number that is not less than a second one, which is not less than a third
/// one, is not less than the third.
pub proof fn lemma_not_less_transitive(a: (i128, u32), b: (i128, u32), c: (i128, u32))
    requires
        !less_than(a, b),
        !less_than(b, c),
    ensures
        !less_than(a, c),
{
    lemma_pow10_positive(a.1 as nat);
    lemma_pow10_positive(b.1 as nat);
    lemma_pow10_positive(c.1 as nat);
    let (x, y, z) = (a.0 as int, b.0 as int, c.0 as int);
    let (p, q, r) = (pow10(a.1 as nat), pow10(b.1 as nat), pow10(c.1 as nat));
    assert(x * r >= z * p) by (nonlinear_arith)
        requires
            x * q >= y * p,
            y * r >= z * q,
            p >= 1,
            q >= 1,
            r >= 1,
    {
        assert((x * q) * r >= (y * p) * r) by (nonlinear_arith)
            requires
                x * q >= y * p,
                r >= 1,
        ;
        assert((y * r) * p >= (z * q) * p) by (nonlinear_arith)
            requires
                y * r >= z * q,
                p >= 1,
        ;
        assert((x * r) * q == (x * q) * r) by (nonlinear_arith);
        assert((y * p) * r == (y * r) * p) by (nonlinear_arith);
        assert((z * q) * p == (z * p) * q) by (nonlinear_arith);
        assert((x * r) * q >= (z * p) * q);
        assert(x * r >= z * p) by (nonlinear_arith)
            requires
                (x * r) * q >= (z * p) * q,
                q >= 1,
        ;
    }
}

/// A power of ten is positive.
pub proof fn lemma_pow10_positive(n: nat)
    ensures
        pow10(n) >= 1,
    decreases n,
{
    if n > 0 {
        lemma_pow10_positive((n - 1) as nat);
    }
}

/// Numbers compare with zero by their mantissas alone.
pub proof fn lemma_sign(number: (i128, u32), zero: (i128, u32))
    requires
        zero.0 == 0,
    ensures
        less_than(number, zero) <==> number.0 < 0,
        less_than(zero, number) <==> number.0 > 0,
        same_number(number, zero) <==> number.0 == 0,
{
    lemma_pow10_positive(zero.1 as nat);
    let p = pow10(zero.1 as nat);
    let m = number.0 as int;
    assert((m * p < 0 <==> m < 0) && (m * p > 0 <==> m > 0) && (m * p == 0 <==> m == 0))
        by (nonlinear_arith)
        requires
            p >= 1,
    ;
    assert(0 * pow10(number.1 as nat) == 0) by (nonlinear_arith);
}

/// Numbers that equal the same number equal each other.
pub proof fn lemma_same_number_transitive(a: (i128, u32), b: (i128, u32), c: (i128, u32))
    requires
        same_number(a, b),
        same_number(b, c),
    ensures
        same_number(a, c),
        same_number(b, a),
{
    lemma_pow10_positive(a.1 as nat);
    lemma_pow10_positive(b.1 as nat);
    lemma_pow10_positive(c.1 as nat);
    let (x, y, z) = (a.0 as int, b.0 as int, c.0 as int);
    let (p, q, r) = (pow10(a.1 as nat), pow10(b.1 as nat), pow10(c.1 as nat));
    assert(x * r == z * p) by (nonlinear_arith)
        requires
            x * q == y * p,
            y * r == z * q,
            p >= 1,
            q >= 1,
            r >= 1,
    {
        assert((x * r) * q == (x * q) * r) by (nonlinear_arith);
        assert((y * p) * r == (y * r) * p) by (nonlinear_arith);
        assert((z * q) * p == (z * p) * q) by (nonlinear_arith);
        assert((x * r) * q == (z * p) * q);
        assert(x * r == z * p) by (nonlinear_arith)
            requires
                (x * r) * q == (z * p) * q,
                q >= 1,
        ;
    }
}

/// The decimal with this mantissa and scale.
pub closed spec fn decimal_of(number: (i128, u32)) -> Decimal {
    Decimal { mantissa: number.0, scale: number.1 }
}

/// A decimal is its mantissa and its scale.
pub proof fn lemma_decimal_of(number: (i128, u32), decimal: Decimal)
    ensures
        decimal_of(number)@ == number,
        decimal_of(decimal@) == decimal,
{
}

/// The decimal with this mantissa and scale, where there is one.
pub open spec fn decimal_in(number: Option<(i128, u32)>) -> Option<Decimal> {
    match number {
        Some(found) => Some(decimal_of(found)),
        None => None,
    }
}

impl Decimal {
    /// The invariant of every decimal: its mantissa and scale fit.
    #[verifier::type_invariant]
    closed spec fn fits(self) -> bool {
        representable((self.mantissa, self.scale))
    }

    /// The decimal with this mantissa and scale, if there is one.
    pub fn new(mantissa: i128, scale: u32) -> (r: Option<Decimal>)
        ensures
            number_in(r) == if representable((mantissa, scale)) {
                Some((mantissa, scale))
            } else {
                None
            },
    {
        if -MANTISSA_LIMIT < mantissa && mantissa < MANTISSA_LIMIT && scale <= MAX_SCALE {
            Some(Decimal { mantissa, scale })
        } else {
            None
        }
    }

    /// The decimal that two numbers from `rust_decimal` make up.
    fn from_parts(parts: Option<(i128, u32)>) -> (r: Option<Decimal>)
        requires
            parts is Some ==> representable(parts->0),
        ensures
            number_in(r) == parts,
            r == decimal_in(parts),
    {
        match parts {
            Some(number) => Some(Decimal { mantissa: number.0, scale: number.1 }),
            None => None,
        }
    }

    /// Zero without digits behind the point.
    pub fn zero() -> (r: Decimal)
        ensures
            r@ == (0i128, 0u32),
            r == decimal_of((0i128, 0u32)),
    {
        Decimal { mantissa: 0, scale: 0 }
    }

    /// The whole number `value`.
    pub fn from_u64(value: u64) -> (r: Decimal)
        ensures
            r@ == (value as i128, 0u32),
    {
        Decimal { mantissa: value as i128, scale: 0 }
    }

    /// The mantissa.
    pub fn mantissa(self) -> (r: i128)
        ensures
            r == self@.0,
    {
        self.mantissa
    }

    /// The number of digits behind the point.
    pub fn scale(self) -> (r: u32)
        ensures
            r == self@.1,
    {
        self.scale
    }

    /// Equality of the numbers, whatever their scales.
    pub fn equals(self, other: Decimal) -> (r: bool)
        ensures
            r == same_number(self@, other@),
    {
        proof {
            use_type_invariant(&self);
            use_type_invariant(&other);
        }
        outside_order(self.mantissa, self.scale, other.mantissa, other.scale) == 0
    }

    /// The receiver is the smaller number.
    pub fn is_less_than(self, other: Decimal) -> (r: bool)
        ensures
            r == less_than(self@, other@),
    {
        proof {
            use_type_invariant(&self);
            use_type_invariant(&other);
        }
        outside_order(self.mantissa, self.scale, other.mantissa, other.scale) == -1
    }

    /// The number is greater than zero.
    pub fn is_positive(self) -> (r: bool)
        ensures
            r == (self@.0 > 0),
    {
        proof {
            lemma_sign(self@, (0i128, 0u32));
        }
        Decimal::zero().is_less_than(self)
    }

    /// The number is zero.
    pub fn is_zero(self) -> (r: bool)
        ensures
            r == (self@.0 == 0),
    {
        self.mantissa == 0
    }

    /// The sum; nothing on overflow.
    pub fn checked_add(self, other: Decimal) -> (r: Option<Decimal>)
        ensures
            number_in(r) == sum_of(self@, other@),
            r == decimal_in(sum_of(self@, other@)),
    {
        proof {
            use_type_invariant(&self);
            use_type_invariant(&other);
        }
        Decimal::from_parts(outside_sum(self.mantissa, self.scale, other.mantissa, other.scale))
    }

    /// The difference; nothing on overflow.
    pub fn checked_sub(self, other: Decimal) -> (r: Option<Decimal>)
        ensures
            number_in(r) == difference_of(self@, other@),
            r == decimal_in(difference_of(self@, other@)),
    {
        proof {
            use_type_invariant(&self);
            use_type_invariant(&other);
        }
        Decimal::from_parts(
            outside_difference(self.mantissa, self.scale, other.mantissa, other.scale),
        )
    }

    /// The product; nothing on overflow.
    pub fn checked_mul(self, other: Decimal) -> (r: Option<Decimal>)
        ensures
            number_in(r) == product_of(self@, other@),
            r == decimal_in(product_of(self@, other@)),
    {
        proof {
            use_type_invariant(&self);
            use_type_invariant(&other);
        }
        Decimal::from_parts(outside_product(self.mantissa, self.scale, other.mantissa, other.scale))
    }

    /// The quotient; nothing for a division by zero and on overflow.
    pub fn checked_div(self, other: Decimal) -> (r: Option<Decimal>)
        ensures
            number_in(r) == quotient_of(self@, other@),
            r == decimal_in(quotient_of(self@, other@)),
    {
        proof {
            use_type_invariant(&self);
            use_type_invariant(&other);
        }
        Decimal::from_parts(
            outside_quotient(self.mantissa, self.scale, other.mantissa, other.scale),
        )
    }

    /// The decimal that a text holds, if it holds one.
    pub fn parse(text: &str) -> (r: Option<Decimal>)
        ensures
            number_in(r) == parsed_number(text@),
            forall|number: Decimal|
                text@ == #[trigger] text_of(number@) && representable(number@) ==> number_in(r)
                    == Some(number@),
    {
        Decimal::from_parts(outside_parse(text))
    }

    /// The text of the number.
    pub fn to_text(self) -> (r: String)
        ensures
            r@ == text_of(self@),
    {
        proof {
            use_type_invariant(&self);
        }
        outside_text(self.mantissa, self.scale)
    }

    /// The number without zeros at the end of its digits behind the point.
    pub fn normalized(self) -> (r: Decimal)
        ensures
            r@ == normalized_of(self@),
    {
        proof {
            use_type_invariant(&self);
            lemma_normalized(self@);
        }
        let (mantissa, scale): (i128, u32) = outside_normalized(self.mantissa, self.scale);
        Decimal { mantissa, scale }
    }
}

} // verus!

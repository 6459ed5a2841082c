//! Exact decimal amounts.
//!
//! An [`Amount`] is a signed 96-bit mantissa with a scale of at most 28 digits,
//! the representation of `rust_decimal::Decimal`. Arithmetic is delegated to
//! that crate; what this module states of it is collected in the functions
//! marked as trusted below.

use rust_decimal::Decimal;
use vstd::arithmetic::power::pow;
use crate::views::{option_view, result_view};
use vstd::prelude::*;

verus! {

/// Largest number of digits after the decimal point that an amount can carry.
pub const MAX_SCALE: u32 = 28;

/// Largest magnitude of a mantissa: `2^96 - 1`.
pub const MAX_MANTISSA: i128 = 79_228_162_514_264_337_593_543_950_335;

/// A decimal number as mathematics sees it: `mantissa / 10^scale`.
pub struct DecimalValue {
    pub mantissa: int,
    pub scale: nat,
}

impl DecimalValue {
    /// The number zero with no fractional digits.
    pub open spec fn zero() -> DecimalValue {
        DecimalValue { mantissa: 0, scale: 0 }
    }

    /// Whether the number fits the 96-bit mantissa and the scale limit.
    pub open spec fn representable(self) -> bool {
        &&& -MAX_MANTISSA <= self.mantissa <= MAX_MANTISSA
        &&& self.scale <= MAX_SCALE
    }

    /// The number counted in units of `10^-28`. Two representable numbers
    /// denote the same quantity exactly when their units agree.
    pub open spec fn units(self) -> int {
        self.mantissa * pow(10, (MAX_SCALE - self.scale) as nat)
    }

    /// The mantissa the number has when written with `scale` fractional
    /// digits, for a `scale` that is not below its own.
    pub open spec fn mantissa_at(self, scale: nat) -> int {
        self.mantissa * pow(10, (scale - self.scale) as nat)
    }

    /// The same number with the opposite sign.
    pub open spec fn negated(self) -> DecimalValue {
        DecimalValue { mantissa: -self.mantissa, scale: self.scale }
    }

    /// The larger of the two scales.
    pub open spec fn common_scale(self, rhs: DecimalValue) -> nat {
        if self.scale >= rhs.scale {
            self.scale
        } else {
            rhs.scale
        }
    }

    /// The exact product. A zero factor gives the plain zero; otherwise the
    /// mantissas multiply and the scales add.
    pub open spec fn product(self, rhs: DecimalValue) -> DecimalValue {
        if self.mantissa == 0 || rhs.mantissa == 0 {
            DecimalValue::zero()
        } else {
            DecimalValue {
                mantissa: self.mantissa * rhs.mantissa,
                scale: self.scale + rhs.scale,
            }
        }
    }

    /// Whether the exact product is representable as it stands.
    pub open spec fn product_fits(self, rhs: DecimalValue) -> bool {
        self.product(rhs).representable()
    }

    /// The exact sum. A zero operand hands the other one back unchanged;
    /// otherwise both are written at the larger scale and added.
    pub open spec fn sum(self, rhs: DecimalValue) -> DecimalValue {
        if self.mantissa == 0 {
            rhs
        } else if rhs.mantissa == 0 {
            self
        } else {
            DecimalValue {
                mantissa: self.mantissa_at(self.common_scale(rhs)) + rhs.mantissa_at(
                    self.common_scale(rhs),
                ),
                scale: self.common_scale(rhs),
            }
        }
    }

    /// The exact difference, formed like the sum.
    pub open spec fn difference(self, rhs: DecimalValue) -> DecimalValue {
        if self.mantissa == 0 {
            rhs.negated()
        } else if rhs.mantissa == 0 {
            self
        } else {
            DecimalValue {
                mantissa: self.mantissa_at(self.common_scale(rhs)) - rhs.mantissa_at(
                    self.common_scale(rhs),
                ),
                scale: self.common_scale(rhs),
            }
        }
    }

    /// Whether both operands can be written at the larger scale within 96 bits.
    pub open spec fn aligns_with(self, rhs: DecimalValue) -> bool {
        &&& -MAX_MANTISSA <= self.mantissa_at(self.common_scale(rhs)) <= MAX_MANTISSA
        &&& -MAX_MANTISSA <= rhs.mantissa_at(self.common_scale(rhs)) <= MAX_MANTISSA
    }

    /// Whether the exact sum is computed without any rounding.
    pub open spec fn sum_fits(self, rhs: DecimalValue) -> bool {
        self.mantissa == 0 || rhs.mantissa == 0 || (self.aligns_with(rhs) && self.sum(
            rhs,
        ).representable())
    }

    /// Whether the exact difference is computed without any rounding.
    pub open spec fn difference_fits(self, rhs: DecimalValue) -> bool {
        self.mantissa == 0 || rhs.mantissa == 0 || (self.aligns_with(rhs) && self.difference(
            rhs,
        ).representable())
    }

    /// The number rounded to `dp` fractional digits, a tie going to the even
    /// neighbour. A number that has no more than `dp` digits is left as it is.
    pub open spec fn rounded(self, dp: nat) -> DecimalValue {
        if self.scale <= dp {
            self
        } else {
            let unit = pow(10, (self.scale - dp) as nat);
            let magnitude = if self.mantissa < 0 {
                -self.mantissa
            } else {
                self.mantissa
            };
            let quotient = magnitude / unit;
            let rest = magnitude % unit;
            let nearest = if 2 * rest > unit || (2 * rest == unit && quotient % 2 == 1) {
                quotient + 1
            } else {
                quotient
            };
            DecimalValue {
                mantissa: if self.mantissa < 0 {
                    -nearest
                } else {
                    nearest
                },
                scale: dp,
            }
        }
    }

    /// What multiplication yields: the exact product where it fits, and
    /// otherwise whatever the decimal arithmetic makes of it.
    pub open spec fn checked_mul(self, rhs: DecimalValue) -> Option<DecimalValue> {
        if self.product_fits(rhs) {
            Some(self.product(rhs))
        } else {
            decimal_product(self, rhs)
        }
    }

    /// What addition yields: the exact sum where it fits, and otherwise
    /// whatever the decimal arithmetic makes of it.
    pub open spec fn checked_add(self, rhs: DecimalValue) -> Option<DecimalValue> {
        if self.sum_fits(rhs) {
            Some(self.sum(rhs))
        } else {
            decimal_sum(self, rhs)
        }
    }

    /// What subtraction yields: the exact difference where it fits, and
    /// otherwise whatever the decimal arithmetic makes of it.
    pub open spec fn checked_sub(self, rhs: DecimalValue) -> Option<DecimalValue> {
        if self.difference_fits(rhs) {
            Some(self.difference(rhs))
        } else {
            decimal_difference(self, rhs)
        }
    }
}

/// The result of `Decimal::checked_mul` on operands whose exact product does
/// not fit: a rounded product, or `None` on overflow.
pub uninterp spec fn decimal_product(a: DecimalValue, b: DecimalValue) -> Option<DecimalValue>;

/// The result of `Decimal::checked_add` on operands whose exact sum does not
/// fit: a rounded sum, or `None` on overflow.
pub uninterp spec fn decimal_sum(a: DecimalValue, b: DecimalValue) -> Option<DecimalValue>;

/// The result of `Decimal::checked_sub` on operands whose exact difference
/// does not fit: a rounded difference, or `None` on overflow.
pub uninterp spec fn decimal_difference(a: DecimalValue, b: DecimalValue) -> Option<
    DecimalValue,
>;

/// The character of a decimal digit.
pub open spec fn digit_char(d: int) -> char {
    if d == 0 {
        '0'
    } else if d == 1 {
        '1'
    } else if d == 2 {
        '2'
    } else if d == 3 {
        '3'
    } else if d == 4 {
        '4'
    } else if d == 5 {
        '5'
    } else if d == 6 {
        '6'
    } else if d == 7 {
        '7'
    } else if d == 8 {
        '8'
    } else {
        '9'
    }
}

/// The decimal digits of a natural number, without leading zeros.
pub open spec fn digits_text(n: nat) -> Seq<char>
    decreases n,
{
    if n < 10 {
        seq![digit_char(n as int)]
    } else {
        digits_text(n / 10).push(digit_char((n % 10) as int))
    }
}

/// The last `width` decimal digits of a natural number, zeros included.
pub open spec fn fraction_text(n: nat, width: nat) -> Seq<char>
    decreases width,
{
    if width == 0 {
        Seq::empty()
    } else {
        fraction_text(n / 10, (width - 1) as nat).push(digit_char((n % 10) as int))
    }
}

/// A decimal number in plain notation: a minus sign if it is negative, the
/// whole part, and, for a scale above zero, a point and as many fractional
/// digits as the scale says.
pub open spec fn decimal_text(value: DecimalValue) -> Seq<char> {
    let magnitude = if value.mantissa < 0 {
        -value.mantissa
    } else {
        value.mantissa
    };
    let sign = if value.mantissa < 0 {
        seq!['-']
    } else {
        Seq::<char>::empty()
    };
    let whole = digits_text((magnitude / pow(10, value.scale)) as nat);
    if value.scale == 0 {
        sign + whole
    } else {
        sign + whole + seq!['.'] + fraction_text(
            (magnitude % pow(10, value.scale)) as nat,
            value.scale,
        )
    }
}

/// What `Decimal::from_str_radix` makes of a text in radix 10: the number
/// that it reads, or the words in which it refuses the text.
pub uninterp spec fn decimal_parsed(text: Seq<char>) -> Result<DecimalValue, Seq<char>>;

/// An exact decimal number: a mantissa of at most 96 bits and a scale of at
/// most 28 fractional digits.
#[derive(Clone, Copy, Debug, PartialEq, Eq, Structural)]
pub struct Amount {
    mantissa: i128,
    scale: u32,
}

impl View for Amount {
    type V = DecimalValue;

    closed spec fn view(&self) -> DecimalValue {
        DecimalValue { mantissa: self.mantissa as int, scale: self.scale as nat }
    }
}

impl Amount {
    /// Every amount that executable code holds is representable.
    #[verifier::type_invariant]
    pub open spec fn well_formed(self) -> bool {
        self@.representable()
    }

    /// The amount `num / 10^scale`, for a scale within the limit. A caller
    /// that cannot show the limit uses `from_parts`.
    pub fn new(num: i64, scale: u32) -> (r: Amount)
        requires
            scale <= MAX_SCALE,
        ensures
            r@ == (DecimalValue { mantissa: num as int, scale: scale as nat }),
    {
        Amount { mantissa: num as i128, scale }
    }

    /// The amount `mantissa / 10^scale`, if it is representable.
    pub fn from_parts(mantissa: i128, scale: u32) -> (r: Option<Amount>)
        ensures
            (DecimalValue { mantissa: mantissa as int, scale: scale as nat }).representable()
                ==> option_view(r) == Some(
                DecimalValue { mantissa: mantissa as int, scale: scale as nat },
            ),
            !(DecimalValue { mantissa: mantissa as int, scale: scale as nat }).representable()
                ==> r is None,
    {
        if scale <= MAX_SCALE && -MAX_MANTISSA <= mantissa && mantissa <= MAX_MANTISSA {
            Some(Amount { mantissa, scale })
        } else {
            None
        }
    }

    /// The plain zero.
    pub fn zero() -> (r: Amount)
        ensures
            r@ == DecimalValue::zero(),
    {
        Amount { mantissa: 0, scale: 0 }
    }

    /// The mantissa.
    pub fn mantissa(&self) -> (m: i128)
        ensures
            m == self@.mantissa,
            -MAX_MANTISSA <= m <= MAX_MANTISSA,
    {
        proof {
            use_type_invariant(self);
        }
        self.mantissa
    }

    /// The number of fractional digits.
    pub fn scale(&self) -> (s: u32)
        ensures
            s == self@.scale,
            s <= MAX_SCALE,
    {
        proof {
            use_type_invariant(self);
        }
        self.scale
    }

    /// The product of two amounts, `None` where it overflows.
    pub fn checked_mul(self, rhs: Amount) -> (r: Option<Amount>)
        ensures
            option_view(r) == self@.checked_mul(rhs@),
    {
        decimal_checked_mul(self, rhs)
    }

    /// The sum of two amounts, `None` where it overflows.
    pub fn checked_add(self, rhs: Amount) -> (r: Option<Amount>)
        ensures
            option_view(r) == self@.checked_add(rhs@),
    {
        decimal_checked_add(self, rhs)
    }

    /// The difference of two amounts, `None` where it overflows.
    pub fn checked_sub(self, rhs: Amount) -> (r: Option<Amount>)
        ensures
            option_view(r) == self@.checked_sub(rhs@),
    {
        decimal_checked_sub(self, rhs)
    }

    /// Reads an amount from a text in plain decimal notation. A text that
    /// is refused gives the reason in words.
    pub fn parse(text: &str) -> (r: Result<Amount, String>)
        ensures
            result_view(r) == decimal_parsed(text@),
    {
        decimal_from_str(text)
    }

    /// The amount in plain notation, with all its fractional digits.
    pub fn to_string(&self) -> (s: String)
        ensures
            s@ == decimal_text(self@),
    {
        decimal_to_string(*self)
    }

    /// The amount rounded to `dp` fractional digits, ties to even.
    pub fn round_dp(self, dp: u32) -> (r: Amount)
        ensures
            r@ == self@.rounded(dp as nat),
    {
        decimal_round_dp(self, dp)
    }
}

/// Trusted: `Decimal::checked_mul` of rust_decimal. A zero factor gives the
/// plain zero. Otherwise, where the product of the mantissas fits 96 bits and
/// the scales sum to at most 28, the result is that product at that scale.
/// Outside of this the crate rounds or reports overflow, which is only named.
#[verifier::external_body]
fn decimal_checked_mul(a: Amount, b: Amount) -> (r: Option<Amount>)
    ensures
        a@.product_fits(b@) ==> option_view(r) == Some(a@.product(b@)),
        !a@.product_fits(b@) ==> option_view(r) == decimal_product(a@, b@),
{
    let x = Decimal::from_i128_with_scale(a.mantissa, a.scale);
    let y = Decimal::from_i128_with_scale(b.mantissa, b.scale);
    match x.checked_mul(y) {
        Some(d) => Some(Amount { mantissa: d.mantissa(), scale: d.scale() }),
        None => None,
    }
}

/// Trusted: `Decimal::checked_add` of rust_decimal. A zero operand hands the
/// other one back. Otherwise, where both operands and their sum fit 96 bits at
/// the larger scale, the result is that sum at that scale. Outside of this the
/// crate rounds or reports overflow, which is only named.
#[verifier::external_body]
fn decimal_checked_add(a: Amount, b: Amount) -> (r: Option<Amount>)
    ensures
        a@.sum_fits(b@) ==> option_view(r) == Some(a@.sum(b@)),
        !a@.sum_fits(b@) ==> option_view(r) == decimal_sum(a@, b@),
{
    let x = Decimal::from_i128_with_scale(a.mantissa, a.scale);
    let y = Decimal::from_i128_with_scale(b.mantissa, b.scale);
    match x.checked_add(y) {
        Some(d) => Some(Amount { mantissa: d.mantissa(), scale: d.scale() }),
        None => None,
    }
}

/// Trusted: `Decimal::checked_sub` of rust_decimal. Subtracting from zero
/// negates the other operand, subtracting zero changes nothing. Otherwise,
/// where both operands and their difference fit 96 bits at the larger scale,
/// the result is that difference at that scale. Outside of this the crate
/// rounds or reports overflow, which is only named.
#[verifier::external_body]
fn decimal_checked_sub(a: Amount, b: Amount) -> (r: Option<Amount>)
    ensures
        a@.difference_fits(b@) ==> option_view(r) == Some(a@.difference(b@)),
        !a@.difference_fits(b@) ==> option_view(r) == decimal_difference(a@, b@),
{
    let x = Decimal::from_i128_with_scale(a.mantissa, a.scale);
    let y = Decimal::from_i128_with_scale(b.mantissa, b.scale);
    match x.checked_sub(y) {
        Some(d) => Some(Amount { mantissa: d.mantissa(), scale: d.scale() }),
        None => None,
    }
}

/// Trusted: `Decimal::round_dp` of rust_decimal, which rounds half to even. A
/// number with no more than `dp` fractional digits comes back unchanged; any
/// other comes back with exactly `dp` digits.
#[verifier::external_body]
fn decimal_round_dp(a: Amount, dp: u32) -> (r: Amount)
    ensures
        r@ == a@.rounded(dp as nat),
{
    let d = Decimal::from_i128_with_scale(a.mantissa, a.scale).round_dp(dp);
    Amount { mantissa: d.mantissa(), scale: d.scale() }
}

/// Trusted: `Decimal::from_str_radix` of rust_decimal with radix 10. What it
/// reads, and the words of its error, depend on the text alone; both are
/// only named.
#[verifier::external_body]
fn decimal_from_str(text: &str) -> (r: Result<Amount, String>)
    ensures
        result_view(r) == decimal_parsed(text@),
{
    match Decimal::from_str_radix(text, 10) {
        Ok(d) => Ok(Amount { mantissa: d.mantissa(), scale: d.scale() }),
        Err(e) => Err(e.to_string()),
    }
}

/// Trusted: the `Display` of `Decimal` of rust_decimal without a precision.
/// It writes the digits of the mantissa with the point before the last
/// `scale` of them, a zero before the point where no digit is left there, and
/// a minus sign before a negative number.
#[verifier::external_body]
fn decimal_to_string(a: Amount) -> (s: String)
    ensures
        s@ == decimal_text(a@),
{
    Decimal::from_i128_with_scale(a.mantissa, a.scale).to_string()
}

} // verus!

//! The tax formulas: deduction, health insurance, tax base and tax amount.
//!
//! Every function returns `None` only where the decimal arithmetic overflows.
//! The `*_value` functions say what is computed; the lemmas at the end state
//! how the results add up.

use crate::amount::{Amount, DecimalValue};
use crate::views::option_view;
use vstd::arithmetic::power::{lemma_pow_adds, lemma_pow_positive, pow};
use vstd::prelude::*;

verus! {

/// The number one.
pub open spec fn one() -> DecimalValue {
    DecimalValue { mantissa: 1, scale: 0 }
}

/// One percent, `0.01`.
pub open spec fn hundredth() -> DecimalValue {
    DecimalValue { mantissa: 1, scale: 2 }
}

/// The share of an income that goes to health insurance, `0.04`.
pub open spec fn health_insurance_rate() -> DecimalValue {
    DecimalValue { mantissa: 4, scale: 2 }
}

/// The tax rate on the tax base, `0.10`.
pub open spec fn tax_rate() -> DecimalValue {
    DecimalValue { mantissa: 10, scale: 2 }
}

/// The share of the health insurance that goes to the federation, `0.1020`.
pub open spec fn federation_rate() -> DecimalValue {
    DecimalValue { mantissa: 1020, scale: 4 }
}

/// `1 - percentage * 0.01`.
pub open spec fn deduction_factor_value(percentage: DecimalValue) -> Option<DecimalValue> {
    match percentage.checked_mul(hundredth()) {
        Some(share) => one().checked_sub(share),
        None => None,
    }
}

/// `income * (1 - percentage * 0.01)`.
pub open spec fn income_after_deduction_value(
    income: DecimalValue,
    percentage: DecimalValue,
) -> Option<DecimalValue> {
    match deduction_factor_value(percentage) {
        Some(factor) => income.checked_mul(factor),
        None => None,
    }
}

/// `income * 0.04`.
pub open spec fn health_insurance_part_value(income: DecimalValue) -> Option<DecimalValue> {
    income.checked_mul(health_insurance_rate())
}

/// `income - health_insurance_part(income)`.
pub open spec fn tax_base_value(income: DecimalValue) -> Option<DecimalValue> {
    match health_insurance_part_value(income) {
        Some(insurance) => income.checked_sub(insurance),
        None => None,
    }
}

/// `tax_base(income) * 0.10`.
pub open spec fn tax_amount_value(income: DecimalValue) -> Option<DecimalValue> {
    match tax_base_value(income) {
        Some(base) => base.checked_mul(tax_rate()),
        None => None,
    }
}

/// `health_insurance_part(income) * 0.1020`.
pub open spec fn health_insurance_federation_value(income: DecimalValue) -> Option<
    DecimalValue,
> {
    match health_insurance_part_value(income) {
        Some(insurance) => insurance.checked_mul(federation_rate()),
        None => None,
    }
}

/// `health_insurance_part(income) - health_insurance_federation(income)`: the
/// canton gets what the federation leaves.
pub open spec fn health_insurance_canton_value(income: DecimalValue) -> Option<DecimalValue> {
    match health_insurance_part_value(income) {
        Some(insurance) => match health_insurance_federation_value(income) {
            Some(federation) => insurance.checked_sub(federation),
            None => None,
        },
        None => None,
    }
}

/// The income that is left when `deduction_percentage` percent are taken off.
/// The percentage is not clamped: one above 100 gives a negative result.
pub fn income_after_deduction(income: Amount, deduction_percentage: Amount) -> (r: Option<Amount>)
    ensures
        option_view(r) == income_after_deduction_value(income@, deduction_percentage@),
{
    match deduction_percentage.checked_mul(Amount::new(1, 2)) {
        Some(share) => match Amount::new(1, 0).checked_sub(share) {
            Some(factor) => income.checked_mul(factor),
            None => None,
        },
        None => None,
    }
}

/// The health-insurance part of an income after deduction.
pub fn health_insurance_part(deduced_income: Amount) -> (r: Option<Amount>)
    ensures
        option_view(r) == health_insurance_part_value(deduced_income@),
{
    deduced_income.checked_mul(Amount::new(4, 2))
}

/// The tax base: the income without its health-insurance part.
pub fn tax_base(deduced_income: Amount) -> (r: Option<Amount>)
    ensures
        option_view(r) == tax_base_value(deduced_income@),
{
    match health_insurance_part(deduced_income) {
        Some(insurance) => deduced_income.checked_sub(insurance),
        None => None,
    }
}

/// The income tax: a tenth of the tax base.
pub fn tax_amount(deduced_income: Amount) -> (r: Option<Amount>)
    ensures
        option_view(r) == tax_amount_value(deduced_income@),
{
    match tax_base(deduced_income) {
        Some(base) => base.checked_mul(Amount::new(10, 2)),
        None => None,
    }
}

/// The federation's share of the health insurance.
pub fn health_insurance_federation(deduced_income: Amount) -> (r: Option<Amount>)
    ensures
        option_view(r) == health_insurance_federation_value(deduced_income@),
{
    match health_insurance_part(deduced_income) {
        Some(insurance) => insurance.checked_mul(Amount::new(1020, 4)),
        None => None,
    }
}

/// The canton's share of the health insurance.
pub fn health_insurance_canton(deduced_income: Amount) -> (r: Option<Amount>)
    ensures
        option_view(r) == health_insurance_canton_value(deduced_income@),
{
    match health_insurance_part(deduced_income) {
        Some(insurance) => match health_insurance_federation(deduced_income) {
            Some(federation) => insurance.checked_sub(federation),
            None => None,
        },
        None => None,
    }
}

/// Writing a number at a larger scale does not change what it counts.
pub proof fn lemma_units_at_scale(a: DecimalValue, scale: nat)
    requires
        a.scale <= scale <= crate::amount::MAX_SCALE,
    ensures
        a.mantissa_at(scale) * pow(10, (crate::amount::MAX_SCALE - scale) as nat) == a.units(),
{
    let up = (scale - a.scale) as nat;
    let rest = (crate::amount::MAX_SCALE - scale) as nat;
    lemma_pow_adds(10, up, rest);
    assert(a.mantissa * pow(10, up) * pow(10, rest) == a.mantissa * (pow(10, up) * pow(10, rest)))
        by (nonlinear_arith);
}

/// An exact difference counts what its operands count, subtracted.
pub proof fn lemma_difference_units(a: DecimalValue, b: DecimalValue)
    requires
        a.representable(),
        b.representable(),
    ensures
        a.difference(b).units() == a.units() - b.units(),
{
    if a.mantissa == 0 {
        assert(0 * pow(10, (crate::amount::MAX_SCALE - a.scale) as nat) == 0);
        assert((-b.mantissa) * pow(10, (crate::amount::MAX_SCALE - b.scale) as nat) == -(
        b.mantissa * pow(10, (crate::amount::MAX_SCALE - b.scale) as nat))) by (nonlinear_arith);
    } else if b.mantissa == 0 {
        assert(0 * pow(10, (crate::amount::MAX_SCALE - b.scale) as nat) == 0);
    } else {
        let scale = a.common_scale(b);
        let rest = pow(10, (crate::amount::MAX_SCALE - scale) as nat);
        lemma_units_at_scale(a, scale);
        lemma_units_at_scale(b, scale);
        assert((a.mantissa_at(scale) - b.mantissa_at(scale)) * rest == a.mantissa_at(scale) * rest
            - b.mantissa_at(scale) * rest) by (nonlinear_arith);
    }
}

/// The health-insurance part and the tax base of an income add up to the
/// income, wherever the subtraction that forms the tax base is exact.
pub proof fn lemma_insurance_and_base_make_income(income: DecimalValue)
    requires
        income.representable(),
        health_insurance_part_value(income) is Some,
        health_insurance_part_value(income).unwrap().representable(),
        income.difference_fits(health_insurance_part_value(income).unwrap()),
    ensures
        tax_base_value(income) is Some,
        health_insurance_part_value(income).unwrap().units() + tax_base_value(
            income,
        ).unwrap().units() == income.units(),
{
    lemma_difference_units(income, health_insurance_part_value(income).unwrap());
}

/// The federation's and the canton's share add up to the health-insurance
/// part exactly, wherever the subtraction that forms the canton's share is
/// exact: the canton's share is a remainder, not a second product.
pub proof fn lemma_federation_and_canton_make_insurance(income: DecimalValue)
    requires
        health_insurance_part_value(income) is Some,
        health_insurance_part_value(income).unwrap().representable(),
        health_insurance_federation_value(income) is Some,
        health_insurance_federation_value(income).unwrap().representable(),
        health_insurance_part_value(income).unwrap().difference_fits(
            health_insurance_federation_value(income).unwrap(),
        ),
    ensures
        health_insurance_canton_value(income) is Some,
        health_insurance_federation_value(income).unwrap().units()
            + health_insurance_canton_value(income).unwrap().units()
            == health_insurance_part_value(income).unwrap().units(),
{
    lemma_difference_units(
        health_insurance_part_value(income).unwrap(),
        health_insurance_federation_value(income).unwrap(),
    );
}

/// Whether an income is of ordinary size: at most 22 fractional digits and a
/// mantissa of at most `10^24` in magnitude. The figures of such an income
/// are all exact.
pub open spec fn ordinary(income: DecimalValue) -> bool {
    &&& income.scale <= 22
    &&& -1_000_000_000_000_000_000_000_000 <= income.mantissa <= 1_000_000_000_000_000_000_000_000
}

/// The figures of an income of ordinary size are there, and they are exact:
/// a zero income has zero figures, and for any other the mantissa is
/// multiplied by 4, 96, 960, 4080 and 35920, at 2, 2, 4, 6 and 6 fractional
/// digits more.
pub proof fn lemma_figures_of_ordinary_income(income: DecimalValue)
    requires
        ordinary(income),
    ensures
        income.representable(),
        health_insurance_part_value(income) is Some,
        health_insurance_federation_value(income) is Some,
        health_insurance_part_value(income).unwrap().representable(),
        health_insurance_federation_value(income).unwrap().representable(),
        income.difference_fits(health_insurance_part_value(income).unwrap()),
        health_insurance_part_value(income).unwrap().difference_fits(
            health_insurance_federation_value(income).unwrap(),
        ),
        income.mantissa == 0 ==> {
            &&& health_insurance_part_value(income) == Some(DecimalValue::zero())
            &&& tax_base_value(income) == Some(DecimalValue::zero())
            &&& tax_amount_value(income) == Some(DecimalValue::zero())
            &&& health_insurance_federation_value(income) == Some(DecimalValue::zero())
            &&& health_insurance_canton_value(income) == Some(DecimalValue::zero())
        },
        income.mantissa != 0 ==> {
            &&& health_insurance_part_value(income) == Some(
                DecimalValue { mantissa: 4 * income.mantissa, scale: income.scale + 2 },
            )
            &&& tax_base_value(income) == Some(
                DecimalValue { mantissa: 96 * income.mantissa, scale: income.scale + 2 },
            )
            &&& tax_amount_value(income) == Some(
                DecimalValue { mantissa: 960 * income.mantissa, scale: income.scale + 4 },
            )
            &&& health_insurance_federation_value(income) == Some(
                DecimalValue { mantissa: 4080 * income.mantissa, scale: income.scale + 6 },
            )
            &&& health_insurance_canton_value(income) == Some(
                DecimalValue { mantissa: 35920 * income.mantissa, scale: income.scale + 6 },
            )
        },
{
    reveal_with_fuel(pow, 5);
    assert(pow(10, 0) == 1);
    assert(pow(10, 2) == 100);
    assert(pow(10, 4) == 10000);
    if income.mantissa != 0 {
        let insurance = DecimalValue { mantissa: 4 * income.mantissa, scale: income.scale + 2 };
        assert(income.product(health_insurance_rate()) == insurance);
        assert(income.common_scale(insurance) == income.scale + 2);
        assert(income.mantissa_at(income.scale + 2) == income.mantissa * 100);
        assert(insurance.mantissa_at(income.scale + 2) == insurance.mantissa * 1);
        let base = DecimalValue { mantissa: 96 * income.mantissa, scale: income.scale + 2 };
        assert(income.difference(insurance) == base);
        assert(base.product(tax_rate()) == DecimalValue {
            mantissa: 960 * income.mantissa,
            scale: income.scale + 4,
        });
        let federation = DecimalValue { mantissa: 4080 * income.mantissa, scale: income.scale + 6 };
        assert(insurance.product(federation_rate()) == federation);
        assert(insurance.common_scale(federation) == income.scale + 6);
        assert(insurance.mantissa_at(income.scale + 6) == insurance.mantissa * 10000);
        assert(federation.mantissa_at(income.scale + 6) == federation.mantissa * 1);
        assert(insurance.difference(federation) == DecimalValue {
            mantissa: 35920 * income.mantissa,
            scale: income.scale + 6,
        });
    }
}

/// Whether a gross income and a deduction are of ordinary size: at most two
/// fractional digits each, the income a mantissa of at most `10^17` and the
/// percentage one of at most `10^6` in magnitude.
pub open spec fn ordinary_request(income: DecimalValue, percentage: DecimalValue) -> bool {
    &&& income.scale <= 2
    &&& -100_000_000_000_000_000 <= income.mantissa <= 100_000_000_000_000_000
    &&& percentage.scale <= 2
    &&& -1_000_000 <= percentage.mantissa <= 1_000_000
}

/// The income after deduction of a request of ordinary size is there, it is
/// exact, and it is an income of ordinary size: its figures are exact too.
pub proof fn lemma_deduction_of_ordinary_request(income: DecimalValue, percentage: DecimalValue)
    requires
        ordinary_request(income, percentage),
    ensures
        income_after_deduction_value(income, percentage) is Some,
        ordinary(income_after_deduction_value(income, percentage).unwrap()),
        income_after_deduction_value(income, percentage).unwrap().units() * pow(10, 2)
            * pow(10, percentage.scale) == income.units() * (100 * pow(10, percentage.scale)
            - percentage.mantissa),
{
    reveal_with_fuel(pow, 5);
    assert(pow(10, 0) == 1);
    assert(pow(10, 1) == 10);
    assert(pow(10, 2) == 100);
    assert(pow(10, 3) == 1000);
    assert(pow(10, 4) == 10000);
    let hundred = pow(10, percentage.scale + 2);
    assert(hundred == 100 * pow(10, percentage.scale));
    assert(100 <= hundred <= 10000);
    let share = percentage.checked_mul(hundredth()).unwrap();
    let factor = one().checked_sub(share).unwrap();
    let times = hundred - percentage.mantissa;
    if percentage.mantissa == 0 {
        assert(share == DecimalValue::zero());
        assert(factor == one());
    } else {
        assert(share == DecimalValue { mantissa: percentage.mantissa, scale: percentage.scale + 2 });
        assert(one().common_scale(share) == percentage.scale + 2);
        assert(one().mantissa_at(percentage.scale + 2) == hundred);
        assert(share.mantissa_at(percentage.scale + 2) == share.mantissa * 1);
        assert(factor == DecimalValue { mantissa: times, scale: percentage.scale + 2 });
    }
    assert(-1_010_000 <= factor.mantissa <= 1_010_000);
    assert(-101_000_000_000_000_000_000_000 <= income.mantissa * factor.mantissa
        <= 101_000_000_000_000_000_000_000) by (nonlinear_arith)
        requires
            -100_000_000_000_000_000 <= income.mantissa <= 100_000_000_000_000_000,
            -1_010_000 <= factor.mantissa <= 1_010_000,
    ;
    let result = income.product(factor);
    assert(income_after_deduction_value(income, percentage) == Some(result));
    lemma_product_units(income, factor);
    if percentage.mantissa == 0 {
        assert(factor.units() == pow(10, 28));
        assert(result.units() * pow(10, 28) * (100 * pow(10, percentage.scale)) == (income.units()
            * (100 * pow(10, percentage.scale))) * pow(10, 28)) by (nonlinear_arith)
            requires
                result.units() * pow(10, 28) == income.units() * pow(10, 28),
        ;
        lemma_pow_positive(10, 28);
        assert(result.units() * (100 * pow(10, percentage.scale)) == income.units() * (100 * pow(
            10,
            percentage.scale,
        ))) by (nonlinear_arith)
            requires
                result.units() * pow(10, 28) * (100 * pow(10, percentage.scale)) == (income.units()
                    * (100 * pow(10, percentage.scale))) * pow(10, 28),
                pow(10, 28) > 0,
        ;
        assert(result.units() * pow(10, 2) * pow(10, percentage.scale) == result.units() * (100
            * pow(10, percentage.scale))) by (nonlinear_arith)
            requires
                pow(10, 2) == 100,
        ;
    } else {
        let rest = pow(10, (26 - percentage.scale) as nat);
        lemma_pow_adds(10, percentage.scale + 2, (26 - percentage.scale) as nat);
        assert(hundred * rest == pow(10, 28));
        lemma_pow_positive(10, 28);
        assert(factor.units() == times * rest);
        assert(result.units() * pow(10, 28) == income.units() * (times * rest));
        assert(result.units() * hundred * rest == income.units() * times * rest)
            by (nonlinear_arith)
            requires
                result.units() * (hundred * rest) == income.units() * (times * rest),
        ;
        lemma_pow_positive(10, (26 - percentage.scale) as nat);
        assert(result.units() * hundred == income.units() * times) by (nonlinear_arith)
            requires
                result.units() * hundred * rest == income.units() * times * rest,
                rest > 0,
        ;
        assert(result.units() * pow(10, 2) * pow(10, percentage.scale) == result.units() * hundred)
            by (nonlinear_arith)
            requires
                hundred == 100 * pow(10, percentage.scale),
                pow(10, 2) == 100,
        ;
    }
}

/// An exact product counts the product of what its factors count, in units
/// of `10^-28` once more.
pub proof fn lemma_product_units(a: DecimalValue, b: DecimalValue)
    requires
        a.representable(),
        b.representable(),
        a.product_fits(b),
    ensures
        a.product(b).units() * pow(10, 28) == a.units() * b.units(),
{
    if a.mantissa == 0 || b.mantissa == 0 {
        assert(a.units() * b.units() == 0) by (nonlinear_arith)
            requires
                a.units() == 0 || b.units() == 0,
        ;
        assert(0 * pow(10, 28) == 0);
    } else {
        let pa = pow(10, (28 - a.scale) as nat);
        let pb = pow(10, (28 - b.scale) as nat);
        let pp = pow(10, (28 - a.scale - b.scale) as nat);
        lemma_pow_adds(10, (28 - a.scale - b.scale) as nat, b.scale);
        lemma_pow_adds(10, (28 - b.scale) as nat, b.scale);
        lemma_pow_adds(10, (28 - a.scale) as nat, (28 - b.scale) as nat);
        lemma_pow_adds(10, (28 - a.scale - b.scale) as nat, 28);
        assert(pp * pow(10, 28) == pa * pb);
        assert((a.mantissa * b.mantissa) * pp * pow(10, 28) == (a.mantissa * pa) * (b.mantissa
            * pb)) by (nonlinear_arith)
            requires
                pp * pow(10, 28) == pa * pb,
        ;
    }
}

/// For an income of ordinary size the health-insurance part and the tax
/// base add up to the income.
pub proof fn lemma_insurance_and_base_make_ordinary_income(income: DecimalValue)
    requires
        ordinary(income),
    ensures
        health_insurance_part_value(income) is Some,
        tax_base_value(income) is Some,
        health_insurance_part_value(income).unwrap().units() + tax_base_value(
            income,
        ).unwrap().units() == income.units(),
{
    lemma_figures_of_ordinary_income(income);
    lemma_insurance_and_base_make_income(income);
}

/// For an income of ordinary size the federation's and the canton's share
/// add up to the health-insurance part exactly.
pub proof fn lemma_federation_and_canton_make_ordinary_insurance(income: DecimalValue)
    requires
        ordinary(income),
    ensures
        health_insurance_part_value(income) is Some,
        health_insurance_federation_value(income) is Some,
        health_insurance_canton_value(income) is Some,
        health_insurance_federation_value(income).unwrap().units()
            + health_insurance_canton_value(income).unwrap().units()
            == health_insurance_part_value(income).unwrap().units(),
{
    lemma_figures_of_ordinary_income(income);
    lemma_federation_and_canton_make_insurance(income);
}

} // verus!

//! The figures of a tax breakdown.

use crate::amount::{Amount, DecimalValue};
use crate::dict::{has_key, FieldDict};
use crate::forms::formutils::{format_money_value, money_text};
use crate::views::option_view;
use vstd::prelude::*;
use vstd::string::StringExecFns;

verus! {

/// What an income comes to in tax and health insurance.
pub struct TaxBreakdownData {
    pub income_tax: Amount,
    pub health_insurance_federation: Amount,
    pub health_insurance_canton: Amount,
}

/// What a tax breakdown is to the contracts.
pub struct TaxBreakdownView {
    pub income_tax: DecimalValue,
    pub health_insurance_federation: DecimalValue,
    pub health_insurance_canton: DecimalValue,
}

impl View for TaxBreakdownData {
    type V = TaxBreakdownView;

    open spec fn view(&self) -> TaxBreakdownView {
        TaxBreakdownView {
            income_tax: self.income_tax@,
            health_insurance_federation: self.health_insurance_federation@,
            health_insurance_canton: self.health_insurance_canton@,
        }
    }
}

impl TaxBreakdownView {
    /// The whole health insurance: the federation's and the canton's share.
    pub open spec fn health_insurance_total(self) -> Option<DecimalValue> {
        self.health_insurance_federation.checked_add(self.health_insurance_canton)
    }

    /// Everything that is due: the income tax and the health insurance.
    pub open spec fn total(self) -> Option<DecimalValue> {
        match self.health_insurance_total() {
            Some(insurance) => self.income_tax.checked_add(insurance),
            None => None,
        }
    }

    /// The five figures under their names, as money values. `None` where a
    /// sum overflows.
    pub open spec fn entries(self) -> Option<Seq<(Seq<char>, Seq<char>)>> {
        if self.total() is Some {
            Some(
                seq![
                    ("income_tax"@, money_text(self.income_tax)),
                    (
                        "health_insurance_federation"@,
                        money_text(self.health_insurance_federation),
                    ),
                    ("health_insurance_canton"@, money_text(self.health_insurance_canton)),
                    (
                        "health_insurance_total"@,
                        money_text(self.health_insurance_total().unwrap()),
                    ),
                    ("total"@, money_text(self.total().unwrap())),
                ],
            )
        } else {
            None
        }
    }
}

impl TaxBreakdownData {
    /// The whole health insurance, `None` where the sum overflows.
    pub fn get_health_insurance_total(&self) -> (r: Option<Amount>)
        ensures
            option_view(r) == self@.health_insurance_total(),
    {
        self.health_insurance_federation.checked_add(self.health_insurance_canton)
    }

    /// Everything that is due, `None` where the sum overflows.
    pub fn get_total(&self) -> (r: Option<Amount>)
        ensures
            option_view(r) == self@.total(),
    {
        match self.get_health_insurance_total() {
            Some(insurance) => self.income_tax.checked_add(insurance),
            None => None,
        }
    }

    /// The five figures under their names, formatted as money values.
    pub fn to_dict(&self) -> (r: Option<FieldDict>)
        ensures
            option_view(r) == self@.entries(),
    {
        let insurance = match self.get_health_insurance_total() {
            Some(a) => a,
            None => {
                return None;
            },
        };
        let total = match self.get_total() {
            Some(a) => a,
            None => {
                return None;
            },
        };
        proof {
            reveal_strlit("income_tax");
            reveal_strlit("health_insurance_federation");
            reveal_strlit("health_insurance_canton");
            reveal_strlit("health_insurance_total");
            reveal_strlit("total");
            assert("income_tax"@.len() == 10);
            assert("health_insurance_federation"@.len() == 27);
            assert("health_insurance_canton"@.len() == 23);
            assert("health_insurance_total"@.len() == 22);
            assert("total"@.len() == 5);
        }
        let mut result = FieldDict::new();
        result.insert(String::from_str("income_tax"), format_money_value(self.income_tax));
        let ghost one = result@;
        assert(one =~= seq![("income_tax"@, money_text(self@.income_tax))]);
        result.insert(
            String::from_str("health_insurance_federation"),
            format_money_value(self.health_insurance_federation),
        );
        let ghost two = result@;
        assert(!has_key(one, "health_insurance_federation"@));
        assert(two =~= one.push(
            ("health_insurance_federation"@, money_text(self@.health_insurance_federation)),
        ));
        result.insert(
            String::from_str("health_insurance_canton"),
            format_money_value(self.health_insurance_canton),
        );
        let ghost three = result@;
        assert(!has_key(two, "health_insurance_canton"@));
        assert(three =~= two.push(
            ("health_insurance_canton"@, money_text(self@.health_insurance_canton)),
        ));
        result.insert(String::from_str("health_insurance_total"), format_money_value(insurance));
        let ghost four = result@;
        assert(!has_key(three, "health_insurance_total"@));
        assert(four =~= three.push(("health_insurance_total"@, money_text(insurance@))));
        result.insert(String::from_str("total"), format_money_value(total));
        assert(!has_key(four, "total"@));
        assert(result@ =~= self@.entries().unwrap());
        Some(result)
    }
}

} // verus!

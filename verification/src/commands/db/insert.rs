//! Entering an income into the ledger by hand.

use crate::amount::{Amount, DecimalValue};
use crate::db::{AmsInfo, AmsInfoView, TaxDb};
use crate::dict::assoc_insert;
use crate::error::{Error, ErrorView, UserErrorKind, UserErrorView};
use crate::taxcalculator::{
    income_after_deduction, income_after_deduction_value, tax_amount, tax_amount_value,
};
use crate::views::{option_view, result_view};
use vstd::prelude::*;
use vstd::string::StringExecFns;

verus! {

/// What the command is asked for.
pub struct InsertArgs {
    /// The income after deduction.
    pub deduced_income: Option<Amount>,
    /// The income before deduction; it is rounded to two fractional digits.
    pub income: Option<Amount>,
    /// The deduction in percent, applied to `income` only; it is rounded to
    /// two fractional digits.
    pub deduction_percentage: Amount,
    /// The date of the invoice.
    pub invoice_date: String,
}

/// The income after deduction that is entered: the income with the
/// deduction taken off where an income is given, else the deduced income
/// that is given; one of the two is needed.
pub open spec fn entered_income(
    income: Option<DecimalValue>,
    deduced_income: Option<DecimalValue>,
    percentage: DecimalValue,
) -> Result<DecimalValue, ErrorView> {
    match income {
        Some(inc) => match income_after_deduction_value(inc.rounded(2), percentage.rounded(2)) {
            Some(deduced) => Ok(deduced),
            None => Err(ErrorView::AmountOverflow),
        },
        None => match deduced_income {
            Some(deduced) => Ok(deduced),
            None => Err(
                ErrorView::UserError(
                    UserErrorView::Generic("Provide either --income or --deduced-income!"@),
                ),
            ),
        },
    }
}

/// The ledger entry that is made: the income after deduction and the tax on
/// it.
pub open spec fn entered_info(
    income: Option<DecimalValue>,
    deduced_income: Option<DecimalValue>,
    percentage: DecimalValue,
) -> Result<AmsInfoView, ErrorView> {
    match entered_income(income, deduced_income, percentage) {
        Ok(deduced) => match tax_amount_value(deduced) {
            Some(tax) => Ok(AmsInfoView { income_total: deduced, tax_paid: tax }),
            None => Err(ErrorView::AmountOverflow),
        },
        Err(e) => Err(e),
    }
}

/// Enters an income into the ledger under the date of its invoice. What was
/// filed under that date is replaced. On an error the ledger is left as it
/// was.
pub fn handle_command(tax_db: &mut TaxDb, args: &InsertArgs) -> (r: Result<(), Error>)
    ensures
        match entered_info(
            option_view(args.income),
            option_view(args.deduced_income),
            args.deduction_percentage@,
        ) {
            Ok(info) => r is Ok && final(tax_db)@ == assoc_insert(
                old(tax_db)@,
                args.invoice_date@,
                info,
            ),
            Err(e) => result_view(r) == Err::<(), ErrorView>(e) && final(tax_db)@ == old(tax_db)@,
        },
{
    let income = match args.income {
        Some(inc) => match income_after_deduction(
            inc.round_dp(2),
            args.deduction_percentage.round_dp(2),
        ) {
            Some(deduced) => deduced,
            None => {
                return Err(Error::AmountOverflow);
            },
        },
        None => match args.deduced_income {
            Some(deduced_income) => deduced_income,
            None => {
                return Err(
                    Error::UserError(
                        UserErrorKind::Generic(
                            String::from_str("Provide either --income or --deduced-income!"),
                        ),
                    ),
                );
            },
        },
    };
    let tax_paid = match tax_amount(income) {
        Some(tax) => tax,
        None => {
            return Err(Error::AmountOverflow);
        },
    };
    tax_db.add_ams_info(AmsInfo { income_total: income, tax_paid }, args.invoice_date.clone());
    Ok(())
}

} // verus!

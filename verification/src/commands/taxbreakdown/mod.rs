//! The tax breakdown of an income: what is due in tax and health insurance.

use crate::amount::{Amount, DecimalValue};
use crate::commands::taxbreakdown::data::{TaxBreakdownData, TaxBreakdownView};
use crate::dict::FieldDict;
use crate::error::{Error, ErrorView, UserErrorKind, UserErrorView};
use crate::format::utils::{fill_template, filled};
use crate::format::OutputFormat;
use crate::taxcalculator::{
    health_insurance_canton, health_insurance_canton_value, health_insurance_federation,
    health_insurance_federation_value, income_after_deduction, income_after_deduction_value,
    tax_amount, tax_amount_value,
};
use crate::views::{option_view, result_view};
use vstd::prelude::*;
use vstd::string::StringExecFns;

pub mod data;

verus! {

/// What the command is asked for.
pub struct TaxBreakdownArgs {
    /// The income; it is rounded to two fractional digits.
    pub income: Amount,
    /// The deduction in percent; it is rounded to two fractional digits.
    pub deduction_percentage: Amount,
    /// The name of the output file.
    pub output: String,
    pub output_format: OutputFormat,
    /// A template for the output.
    pub output_template: Option<String>,
    /// The file of a template for the output.
    pub output_template_file: Option<String>,
}

/// What the command hands out.
pub enum BreakdownOutput {
    /// The figures, to be written as JSON in the usual shape.
    Json(FieldDict),
    /// A JSON text made from a template.
    JsonTemplate(String),
    /// A text for the terminal.
    Stdout(String),
}

/// What the output is to the contracts.
pub enum BreakdownOutputView {
    Json(Seq<(Seq<char>, Seq<char>)>),
    JsonTemplate(Seq<char>),
    Stdout(Seq<char>),
}

impl View for BreakdownOutput {
    type V = BreakdownOutputView;

    open spec fn view(&self) -> BreakdownOutputView {
        match *self {
            BreakdownOutput::Json(d) => BreakdownOutputView::Json(d@),
            BreakdownOutput::JsonTemplate(s) => BreakdownOutputView::JsonTemplate(s@),
            BreakdownOutput::Stdout(s) => BreakdownOutputView::Stdout(s@),
        }
    }
}

/// The template into which the figures are printed for the terminal where
/// none is given.
pub open spec fn default_stdout_template() -> Seq<char> {
    "Income Tax breakdown:\n\nIncome tax: {income_tax}\n\nHealth insurance:\n  Federation: {health_insurance_federation}\n  Canton: {health_insurance_canton}\n  Total: {health_insurance_total}\n\nTotal: {total}\n"@
}

/// The template that is used: that of the file, else the one given, if any.
pub open spec fn chosen_template(given: Option<Seq<char>>, from_file: Option<Seq<char>>) -> Option<
    Seq<char>,
> {
    match from_file {
        Some(t) => Some(t),
        None => given,
    }
}

/// The figures of an income and a deduction, both rounded to two fractional
/// digits first. `None` where an amount overflows.
pub open spec fn breakdown_of(income: DecimalValue, percentage: DecimalValue) -> Option<
    TaxBreakdownView,
> {
    match income_after_deduction_value(income.rounded(2), percentage.rounded(2)) {
        Some(deduced) => if tax_amount_value(deduced) is Some && health_insurance_federation_value(
            deduced,
        ) is Some && health_insurance_canton_value(deduced) is Some {
            Some(
                TaxBreakdownView {
                    income_tax: tax_amount_value(deduced).unwrap(),
                    health_insurance_federation: health_insurance_federation_value(
                        deduced,
                    ).unwrap(),
                    health_insurance_canton: health_insurance_canton_value(deduced).unwrap(),
                },
            )
        } else {
            None
        },
        None => None,
    }
}

/// The entries of the figures of an income and a deduction.
pub open spec fn breakdown_entries(income: DecimalValue, percentage: DecimalValue) -> Option<
    Seq<(Seq<char>, Seq<char>)>,
> {
    match breakdown_of(income, percentage) {
        Some(figures) => figures.entries(),
        None => None,
    }
}

/// What the command returns. A breakdown is written as JSON or for the
/// terminal; any other format is refused before anything is computed.
pub open spec fn breakdown_result(
    format: OutputFormat,
    income: DecimalValue,
    percentage: DecimalValue,
    template: Option<Seq<char>>,
) -> Result<BreakdownOutputView, ErrorView> {
    if format != OutputFormat::Json && format != OutputFormat::Stdout {
        Err(ErrorView::UserError(UserErrorView::UnsupportedOutputFormat(format)))
    } else {
        match breakdown_entries(income, percentage) {
            None => Err(ErrorView::AmountOverflow),
            Some(entries) => if format == OutputFormat::Json {
                match template {
                    Some(t) => Ok(
                        BreakdownOutputView::JsonTemplate(filled(t, entries, entries.len())),
                    ),
                    None => Ok(BreakdownOutputView::Json(entries)),
                }
            } else {
                match template {
                    Some(t) => Ok(BreakdownOutputView::Stdout(filled(t, entries, entries.len()))),
                    None => Ok(
                        BreakdownOutputView::Stdout(
                            filled(default_stdout_template(), entries, entries.len()),
                        ),
                    ),
                }
            },
        }
    }
}

/// Computes the figures of an income and a deduction.
pub fn compute_breakdown(income: Amount, deduction_percentage: Amount) -> (r: Option<
    TaxBreakdownData,
>)
    ensures
        option_view(r) == breakdown_of(income@, deduction_percentage@),
{
    let deduced_income = match income_after_deduction(
        income.round_dp(2),
        deduction_percentage.round_dp(2),
    ) {
        Some(a) => a,
        None => {
            return None;
        },
    };
    let income_tax = match tax_amount(deduced_income) {
        Some(a) => a,
        None => {
            return None;
        },
    };
    let health_insurance_federation = match health_insurance_federation(deduced_income) {
        Some(a) => a,
        None => {
            return None;
        },
    };
    let health_insurance_canton = match health_insurance_canton(deduced_income) {
        Some(a) => a,
        None => {
            return None;
        },
    };
    Some(TaxBreakdownData { income_tax, health_insurance_federation, health_insurance_canton })
}

/// Computes the tax breakdown that the arguments ask for and prints it in
/// the format asked for. `template_file` is what the template file holds, if
/// one was named; it goes before a template given directly.
pub fn handle_command(args: &TaxBreakdownArgs, template_file: Option<String>) -> (r: Result<
    BreakdownOutput,
    Error,
>)
    ensures
        result_view(r) == breakdown_result(
            args.output_format,
            args.income@,
            args.deduction_percentage@,
            chosen_template(option_view(args.output_template), option_view(template_file)),
        ),
{
    let template: Option<String> = match template_file {
        Some(t) => Some(t),
        None => match &args.output_template {
            Some(t) => Some(t.clone()),
            None => None,
        },
    };
    match args.output_format {
        OutputFormat::Json => {},
        OutputFormat::Stdout => {},
        format => {
            return Err(Error::UserError(UserErrorKind::UnsupportedOutputFormat(format)));
        },
    }
    let data = match compute_breakdown(args.income, args.deduction_percentage) {
        Some(data) => data,
        None => {
            return Err(Error::AmountOverflow);
        },
    };
    let dict = match data.to_dict() {
        Some(dict) => dict,
        None => {
            return Err(Error::AmountOverflow);
        },
    };
    match args.output_format {
        OutputFormat::Json => match template {
            Some(t) => Ok(BreakdownOutput::JsonTemplate(fill_template(t, dict))),
            None => Ok(BreakdownOutput::Json(dict)),
        },
        _ => match template {
            Some(t) => Ok(BreakdownOutput::Stdout(fill_template(t, dict))),
            None => Ok(
                BreakdownOutput::Stdout(
                    fill_template(
                        String::from_str(
                            "Income Tax breakdown:\n\nIncome tax: {income_tax}\n\nHealth insurance:\n  Federation: {health_insurance_federation}\n  Canton: {health_insurance_canton}\n  Total: {health_insurance_total}\n\nTotal: {total}\n",
                        ),
                        dict,
                    ),
                ),
            ),
        },
    }
}

} // verus!

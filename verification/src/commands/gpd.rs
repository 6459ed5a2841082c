//! Filling the annual report for one year.

use crate::amount::{decimal_text, Amount, DecimalValue};
use crate::commands::ams::{check_form_format, chosen, is_form_format, missing_config};
use crate::config::{Config, UserConfig};
use crate::db::{income_of, tax_paid_of, year_total, AmsInfoView, TaxDb};
use crate::dict::FieldDict;
use crate::error::{Error, ErrorView, UserErrorKind, UserErrorView};
use crate::format::OutputFormat;
use crate::forms::gpdform::{
    field_offset, user_writes, DeductionsView, FormField, GpdForm, GpdSession, TaxInfoView,
};
use crate::views::result_view;
use vstd::prelude::*;
use vstd::string::StringExecFns;

verus! {

/// What the command is asked for.
pub struct GpdArgs {
    /// The year of the report.
    pub year: String,
    /// The personal deduction of the year.
    pub personal_deduction: Amount,
    /// The income of the first source.
    pub gip_income: Amount,
    /// The tax paid on the income of the first source.
    pub gip_tax_paid: Amount,
    pub output_format: OutputFormat,
    /// The file of the user's configuration.
    pub user_config: Option<String>,
    /// The name of the output file.
    pub output: String,
}

/// The session with the sources and the deductions of the report set: the
/// first source as given, the personal deduction alone, and the income and
/// the tax paid of the monthly forms.
pub open spec fn with_sources(
    session: GpdSession,
    gip: TaxInfoView,
    personal: DecimalValue,
    ams: TaxInfoView,
) -> GpdSession {
    GpdSession {
        gip: Some(gip),
        ams: Some(ams),
        deductions: DeductionsView {
            personal,
            health: DecimalValue::zero(),
            interest: DecimalValue::zero(),
        },
        ..session
    }
}

/// What the command does to a session and what it returns. The steps follow
/// one another, and the first that fails ends the command: the format is
/// checked, the user's configuration is found and written, the tax period is
/// written, the personal deduction is written in plain notation, the sources
/// and the deductions are set, with the year's totals of the ledger for the
/// monthly forms, and the report is completed.
pub open spec fn gpd_outcome(
    session: GpdSession,
    format: OutputFormat,
    year: Seq<char>,
    personal: DecimalValue,
    gip: TaxInfoView,
    ledger: Seq<(Seq<char>, AmsInfoView)>,
    user: Option<UserConfig>,
) -> (GpdSession, Result<Seq<(Seq<char>, Seq<char>)>, ErrorView>) {
    if !is_form_format(format) {
        (session, Err(ErrorView::UserError(UserErrorView::UnsupportedOutputFormat(format))))
    } else if user is None {
        (session, Err(missing_config("user configuration"@, "--user-config"@)))
    } else if session.recorded(user_writes(user.unwrap())).result() is Err {
        (
            session.after_writes(user_writes(user.unwrap())),
            Err(session.recorded(user_writes(user.unwrap())).result()->Err_0),
        )
    } else {
        period_outcome(
            session.after_writes(user_writes(user.unwrap())),
            year,
            personal,
            gip,
            ledger,
        )
    }
}

/// The steps of the command from the tax period on.
pub open spec fn period_outcome(
    session: GpdSession,
    year: Seq<char>,
    personal: DecimalValue,
    gip: TaxInfoView,
    ledger: Seq<(Seq<char>, AmsInfoView)>,
) -> (GpdSession, Result<Seq<(Seq<char>, Seq<char>)>, ErrorView>) {
    let dated = session.with_year(year);
    let deduction = seq![(field_offset(FormField::PersonalDeduction), decimal_text(personal))];
    let noted = dated.after_writes(deduction);
    let income = year_total(ledger, year, |info: AmsInfoView| income_of(info), ledger.len());
    let tax_paid = year_total(ledger, year, |info: AmsInfoView| tax_paid_of(info), ledger.len());
    if session.year_result(year) is Err {
        (dated, Err(session.year_result(year)->Err_0))
    } else if dated.recorded(deduction).result() is Err {
        (noted, Err(dated.recorded(deduction).result()->Err_0))
    } else if income is None || tax_paid is None {
        (noted, Err(ErrorView::AmountOverflow))
    } else {
        (
            with_sources(
                noted,
                gip,
                personal,
                TaxInfoView { income: income.unwrap(), tax_paid: tax_paid.unwrap() },
            ).completed(),
            with_sources(
                noted,
                gip,
                personal,
                TaxInfoView { income: income.unwrap(), tax_paid: tax_paid.unwrap() },
            ).to_dict_result(),
        )
    }
}

/// Fills the annual report for the year that the arguments name, and
/// completes it. `user_config` is the configuration that was given for this
/// run, if any; the configuration file is asked where none is given. The
/// income of the monthly forms comes from the ledger. See `gpd_outcome` for
/// the steps.
pub fn handle_command(
    config: Config,
    args: &GpdArgs,
    user_config: Option<UserConfig>,
    db: &TaxDb,
    form: &mut GpdForm,
) -> (r: Result<FieldDict, Error>)
    ensures
        (final(form)@, result_view(r)) == gpd_outcome(
            old(form)@,
            args.output_format,
            args.year@,
            args.personal_deduction@,
            TaxInfoView { income: args.gip_income@, tax_paid: args.gip_tax_paid@ },
            db@,
            chosen(user_config, config.user),
        ),
{
    match check_form_format(args.output_format) {
        Ok(()) => {},
        Err(e) => {
            return Err(e);
        },
    }
    let user = match user_config {
        Some(c) => c,
        None => match config.user {
            Some(c) => c,
            None => {
                return Err(
                    Error::UserError(
                        UserErrorKind::MissingConfig(
                            String::from_str("user configuration"),
                            String::from_str("--user-config"),
                        ),
                    ),
                );
            },
        },
    };
    match form.fill_user_info(&user) {
        Ok(()) => {},
        Err(e) => {
            return Err(e);
        },
    }
    match form.fill_year_info(args.year.clone()) {
        Ok(()) => {},
        Err(e) => {
            return Err(e);
        },
    }
    match form.fill_field(FormField::PersonalDeduction, args.personal_deduction.to_string()) {
        Ok(()) => {},
        Err(e) => {
            return Err(e);
        },
    }
    let income = match db.total_income_for_year(args.year.clone()) {
        Some(a) => a,
        None => {
            return Err(Error::AmountOverflow);
        },
    };
    let tax_paid = match db.total_tax_paid_for_year(args.year.clone()) {
        Some(a) => a,
        None => {
            return Err(Error::AmountOverflow);
        },
    };
    form.add_gip_info(args.gip_income, args.gip_tax_paid);
    form.add_deductions(args.personal_deduction, Amount::zero(), Amount::zero());
    form.add_ams_info(income, tax_paid);
    form.to_dict()
}

} // verus!

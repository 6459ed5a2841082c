//! Filling the monthly payment form for one income.

use crate::amount::{Amount, DecimalValue};
use crate::config::{ClientConfig, Config, UserConfig};
use crate::db::{AmsInfoView, LedgerEntry};
use crate::dict::FieldDict;
use crate::error::{Error, ErrorView, UserErrorKind, UserErrorView};
use crate::format::OutputFormat;
use crate::forms::amsform::{field_offset, AmsForm, AmsSession, FormField};
use crate::forms::formutils::{writes_view, FieldWrite};
use crate::forms::gpdform::{short_year_message, year_last_two};
use crate::taxcalculator::{income_after_deduction, income_after_deduction_value};
use crate::views::{option_view, result_view};
use vstd::prelude::*;
use vstd::string::StringExecFns;

verus! {

/// What the command is asked for.
pub struct AmsArgs {
    /// The income; it is rounded to two fractional digits.
    pub income: Amount,
    /// The date of the invoice, as year, month and day with dashes between.
    /// Without it nothing goes into the ledger.
    pub invoice_date: Option<String>,
    /// The deduction in percent; it is rounded to two fractional digits.
    pub deduction_percentage: Amount,
    pub output_format: OutputFormat,
    /// The file of the user's configuration.
    pub user_config: Option<String>,
    /// The file of the client's configuration.
    pub client_config: Option<String>,
    /// The name of the output file.
    pub output: String,
    /// Whether the ledger is left alone.
    pub skip_db: bool,
}

/// What the command hands out.
pub struct AmsOutcome {
    /// The values of the form by field name.
    pub fields: FieldDict,
    /// What goes into the ledger, if anything.
    pub ledger_entry: Option<LedgerEntry>,
}

/// What the outcome is to the contracts.
pub struct AmsOutcomeView {
    pub fields: Seq<(Seq<char>, Seq<char>)>,
    pub ledger_entry: Option<(Seq<char>, AmsInfoView)>,
}

impl View for AmsOutcome {
    type V = AmsOutcomeView;

    open spec fn view(&self) -> AmsOutcomeView {
        AmsOutcomeView {
            fields: self.fields@,
            ledger_entry: match self.ledger_entry {
                Some(entry) => Some((entry.date@, entry.info@)),
                None => None,
            },
        }
    }
}

/// Whether a form can be written in a format: as PDF, FDF, XFDF or JSON.
pub open spec fn is_form_format(format: OutputFormat) -> bool {
    format != OutputFormat::Stdout
}

/// Tells whether a form can be written in a format.
pub fn check_form_format(format: OutputFormat) -> (r: Result<(), Error>)
    ensures
        is_form_format(format) ==> r is Ok,
        !is_form_format(format) ==> result_view(r) == Err::<(), ErrorView>(
            ErrorView::UserError(UserErrorView::UnsupportedOutputFormat(format)),
        ),
{
    match format {
        OutputFormat::Pdf => Ok(()),
        OutputFormat::Fdf => Ok(()),
        OutputFormat::Xfdf => Ok(()),
        OutputFormat::Json => Ok(()),
        format => Err(Error::UserError(UserErrorKind::UnsupportedOutputFormat(format))),
    }
}

/// The configuration that is used: the one given for this run, else the one
/// of the configuration file.
pub open spec fn chosen<T>(given: Option<T>, configured: Option<T>) -> Option<T> {
    match given {
        Some(c) => Some(c),
        None => configured,
    }
}

/// The error for a configuration that is in neither place.
pub open spec fn missing_config(what: Seq<char>, argument: Seq<char>) -> ErrorView {
    ErrorView::UserError(UserErrorView::MissingConfig(what, argument))
}

/// The position of the first dash at or after `from`, or the length of the
/// text where there is none.
pub open spec fn dash_index(text: Seq<char>, from: int) -> int
    decreases text.len() - from,
{
    if from < 0 || from >= text.len() {
        text.len() as int
    } else if text[from] == '-' {
        from
    } else {
        dash_index(text, from + 1)
    }
}

/// What stands before and after the first dash of a text, if it has one.
pub open spec fn split_at_dash(text: Seq<char>) -> Option<(Seq<char>, Seq<char>)> {
    if dash_index(text, 0) < text.len() {
        Some((text.take(dash_index(text, 0)), text.skip(dash_index(text, 0) + 1)))
    } else {
        None
    }
}

/// The year, the month and the day of a date: what stands before the first
/// dash, between the first and the second, and after the second.
pub open spec fn date_parts(date: Seq<char>) -> Option<(Seq<char>, Seq<char>, Seq<char>)> {
    match split_at_dash(date) {
        Some((year, rest)) => match split_at_dash(rest) {
            Some((month, day)) => Some((year, month, day)),
            None => None,
        },
        None => None,
    }
}

/// What an invoice date writes: the tax period and the payment date, the
/// year without its first two characters. No date, or one without two
/// dashes, writes nothing; a year of less than two characters is refused.
pub open spec fn date_writes(date: Option<Seq<char>>) -> Result<Seq<(int, Seq<char>)>, ErrorView> {
    match date {
        None => Ok(Seq::empty()),
        Some(text) => match date_parts(text) {
            None => Ok(Seq::empty()),
            Some((year, month, day)) => if year.len() < 2 {
                Err(ErrorView::UserError(UserErrorView::Generic(short_year_message())))
            } else {
                Ok(
                    seq![
                        (field_offset(FormField::TaxPeriodMonth), month),
                        (field_offset(FormField::TaxPeriodYearLast2Digits), year_last_two(year)),
                        (field_offset(FormField::PaymentDateDay), day),
                        (field_offset(FormField::PaymentDateMonth), month),
                        (field_offset(FormField::PaymentDateYear), year_last_two(year)),
                    ],
                )
            },
        },
    }
}

/// What the user's configuration writes.
pub open spec fn user_writes(user: UserConfig) -> Seq<(int, Seq<char>)> {
    seq![
        (field_offset(FormField::UserName), user.name@),
        (field_offset(FormField::UserAddress), user.address@),
        (field_offset(FormField::UserJmbg), user.jmbg@),
    ]
}

/// What the client's configuration writes.
pub open spec fn client_writes(client: ClientConfig) -> Seq<(int, Seq<char>)> {
    seq![
        (field_offset(FormField::CompanyName), client.name@),
        (field_offset(FormField::CompanyAddress), client.address@),
        (field_offset(FormField::CompanyCountry), client.country@),
    ]
}

/// The income after deduction that goes into the form: the income and the
/// percentage are rounded to two fractional digits first.
pub open spec fn deduced_income(income: DecimalValue, percentage: DecimalValue) -> Option<
    DecimalValue,
> {
    income_after_deduction_value(income.rounded(2), percentage.rounded(2))
}

/// What goes into the ledger: the entry of the income under the date of the
/// invoice, unless the ledger is to be left alone or there is no date.
pub open spec fn ledger_entry_for(
    skip_db: bool,
    date: Option<Seq<char>>,
    info: AmsInfoView,
) -> Option<(Seq<char>, AmsInfoView)> {
    match date {
        Some(text) => if skip_db {
            None
        } else {
            Some((text, info))
        },
        None => None,
    }
}

/// What the command does to a session and what it returns. The steps follow
/// one another, and the first that fails ends the command: the format is
/// checked, the income is computed, the user's configuration is found and
/// written, the invoice date is written, the client's configuration is found
/// and written, the income is added, and the form is completed.
pub open spec fn ams_outcome(
    session: AmsSession,
    format: OutputFormat,
    income: DecimalValue,
    percentage: DecimalValue,
    date: Option<Seq<char>>,
    skip_db: bool,
    user: Option<UserConfig>,
    client: Option<ClientConfig>,
) -> (AmsSession, Result<AmsOutcomeView, ErrorView>) {
    if !is_form_format(format) {
        (session, Err(ErrorView::UserError(UserErrorView::UnsupportedOutputFormat(format))))
    } else if deduced_income(income, percentage) is None {
        (session, Err(ErrorView::AmountOverflow))
    } else if user is None {
        (session, Err(missing_config("user configuration"@, "--user-config"@)))
    } else if session.recorded(user_writes(user.unwrap())).result() is Err {
        (
            session.after_writes(user_writes(user.unwrap())),
            Err(session.recorded(user_writes(user.unwrap())).result()->Err_0),
        )
    } else {
        dated_outcome(
            session.after_writes(user_writes(user.unwrap())),
            deduced_income(income, percentage).unwrap(),
            date,
            skip_db,
            client,
        )
    }
}

/// The steps of the command from the invoice date on.
pub open spec fn dated_outcome(
    session: AmsSession,
    deduced: DecimalValue,
    date: Option<Seq<char>>,
    skip_db: bool,
    client: Option<ClientConfig>,
) -> (AmsSession, Result<AmsOutcomeView, ErrorView>) {
    if date_writes(date) is Err {
        (session, Err(date_writes(date)->Err_0))
    } else if session.recorded(date_writes(date)->Ok_0).result() is Err {
        (
            session.after_writes(date_writes(date)->Ok_0),
            Err(session.recorded(date_writes(date)->Ok_0).result()->Err_0),
        )
    } else if client is None {
        (
            session.after_writes(date_writes(date)->Ok_0),
            Err(missing_config("client configuration"@, "--client-config"@)),
        )
    } else {
        income_outcome(
            session.after_writes(date_writes(date)->Ok_0),
            deduced,
            date,
            skip_db,
            client.unwrap(),
        )
    }
}

/// The steps of the command from the client's configuration on.
pub open spec fn income_outcome(
    session: AmsSession,
    deduced: DecimalValue,
    date: Option<Seq<char>>,
    skip_db: bool,
    client: ClientConfig,
) -> (AmsSession, Result<AmsOutcomeView, ErrorView>) {
    let named = session.after_writes(client_writes(client));
    let full = named.with_income(deduced, DecimalValue::zero());
    if session.recorded(client_writes(client)).result() is Err {
        (named, Err(session.recorded(client_writes(client)).result()->Err_0))
    } else {
        match named.income_result(deduced, DecimalValue::zero()) {
            Err(e) => (full, Err(e)),
            Ok(info) => match full.to_dict_result() {
                Err(e) => (full.completed(), Err(e)),
                Ok(fields) => (
                    full.completed(),
                    Ok(
                        AmsOutcomeView {
                            fields,
                            ledger_entry: ledger_entry_for(skip_db, date, info),
                        },
                    ),
                ),
            },
        }
    }
}

/// Splits a text at its first dash.
pub fn split_once_dash(text: &str) -> (r: Option<(&str, &str)>)
    ensures
        match split_at_dash(text@) {
            Some((before, after)) => r is Some && r.unwrap().0@ == before && r.unwrap().1@ == after,
            None => r is None,
        },
{
    let n: usize = text.unicode_len();
    let mut i: usize = 0;
    while i < n
        invariant
            i <= n,
            n == text@.len(),
            dash_index(text@, 0) == dash_index(text@, i as int),
        decreases n - i,
    {
        if text.get_char(i) == '-' {
            let before = text.substring_char(0, i);
            let after = text.substring_char(i + 1, n);
            assert(before@ =~= text@.take(i as int));
            assert(after@ =~= text@.skip(i + 1));
            return Some((before, after));
        }
        i += 1;
    }
    None
}

fn text_write(index: usize, text: &str) -> (w: FieldWrite)
    ensures
        w@ == (index as int, text@),
{
    FieldWrite { index, value: String::from_str(text) }
}

fn invoice_date_writes(date: &Option<String>) -> (r: Result<Vec<FieldWrite>, Error>)
    ensures
        match date_writes(option_view(*date)) {
            Ok(writes) => r is Ok && writes_view(r.unwrap()@) == writes,
            Err(e) => r is Err && r->Err_0@ == e,
        },
{
    let mut writes: Vec<FieldWrite> = Vec::new();
    assert(writes_view(writes@) =~= Seq::<(int, Seq<char>)>::empty());
    let text = match date {
        Some(text) => text,
        None => {
            return Ok(writes);
        },
    };
    let (year, rest) = match split_once_dash(text.as_str()) {
        Some(parts) => parts,
        None => {
            return Ok(writes);
        },
    };
    let (month, day) = match split_once_dash(rest) {
        Some(parts) => parts,
        None => {
            return Ok(writes);
        },
    };
    let n: usize = year.unicode_len();
    if n < 2 {
        return Err(
            Error::UserError(UserErrorKind::Generic(String::from_str("Year must have four digits"))),
        );
    }
    let year_last_2 = year.substring_char(2, n);
    writes.push(text_write(FormField::TaxPeriodMonth.index(), month));
    writes.push(text_write(FormField::TaxPeriodYearLast2Digits.index(), year_last_2));
    writes.push(text_write(FormField::PaymentDateDay.index(), day));
    writes.push(text_write(FormField::PaymentDateMonth.index(), month));
    writes.push(text_write(FormField::PaymentDateYear.index(), year_last_2));
    assert(writes_view(writes@) =~= date_writes(option_view(*date))->Ok_0);
    Ok(writes)
}

/// Fills the monthly payment form for the income that the arguments name,
/// and completes it. `user_config` and `client_config` are the
/// configurations that were given for this run, if any; the configuration
/// file is asked where one is not given. See `ams_outcome` for the steps.
pub fn handle_command(
    config: Config,
    args: &AmsArgs,
    user_config: Option<UserConfig>,
    client_config: Option<ClientConfig>,
    form: &mut AmsForm,
) -> (r: Result<AmsOutcome, Error>)
    ensures
        (final(form)@, result_view(r)) == ams_outcome(
            old(form)@,
            args.output_format,
            args.income@,
            args.deduction_percentage@,
            option_view(args.invoice_date),
            args.skip_db,
            chosen(user_config, config.user),
            chosen(client_config, config.client),
        ),
{
    match check_form_format(args.output_format) {
        Ok(()) => {},
        Err(e) => {
            return Err(e);
        },
    }
    let income_after = match income_after_deduction(
        args.income.round_dp(2),
        args.deduction_percentage.round_dp(2),
    ) {
        Some(a) => a,
        None => {
            return Err(Error::AmountOverflow);
        },
    };
    let user = match user_config {
        Some(c) => c,
        None => match config.user {
            Some(c) => c,
            None => {
                return Err(
                    Error::UserError(
                        UserErrorKind::MissingConfig(
                            String::from_str("user configuration"),
                            String::from_str("--user-config"),
                        ),
                    ),
                );
            },
        },
    };
    let mut writes: Vec<FieldWrite> = Vec::new();
    writes.push(FieldWrite { index: FormField::UserName.index(), value: user.name });
    writes.push(FieldWrite { index: FormField::UserAddress.index(), value: user.address });
    writes.push(FieldWrite { index: FormField::UserJmbg.index(), value: user.jmbg });
    assert(writes_view(writes@) =~= user_writes(user));
    match form.fill_fields(writes) {
        Ok(()) => {},
        Err(e) => {
            return Err(e);
        },
    }
    let writes = match invoice_date_writes(&args.invoice_date) {
        Ok(writes) => writes,
        Err(e) => {
            return Err(e);
        },
    };
    match form.fill_fields(writes) {
        Ok(()) => {},
        Err(e) => {
            return Err(e);
        },
    }
    let client = match client_config {
        Some(c) => c,
        None => match config.client {
            Some(c) => c,
            None => {
                return Err(
                    Error::UserError(
                        UserErrorKind::MissingConfig(
                            String::from_str("client configuration"),
                            String::from_str("--client-config"),
                        ),
                    ),
                );
            },
        },
    };
    let mut writes: Vec<FieldWrite> = Vec::new();
    writes.push(FieldWrite { index: FormField::CompanyName.index(), value: client.name });
    writes.push(FieldWrite { index: FormField::CompanyAddress.index(), value: client.address });
    writes.push(FieldWrite { index: FormField::CompanyCountry.index(), value: client.country });
    assert(writes_view(writes@) =~= client_writes(client));
    match form.fill_fields(writes) {
        Ok(()) => {},
        Err(e) => {
            return Err(e);
        },
    }
    let ams_info = match form.add_income(income_after, Amount::zero()) {
        Ok(info) => info,
        Err(e) => {
            return Err(e);
        },
    };
    let fields = match form.to_dict() {
        Ok(fields) => fields,
        Err(e) => {
            return Err(e);
        },
    };
    let ledger_entry = match &args.invoice_date {
        Some(date) => if args.skip_db {
            None
        } else {
            Some(LedgerEntry { date: date.clone(), info: ams_info })
        },
        None => None,
    };
    Ok(AmsOutcome { fields, ledger_entry })
}

} // verus!

//! The annual report: its field layout and the session that fills it.
//!
//! The positions below belong to one published template. They are data of
//! that template: a new edition of the form needs a new table.

use crate::amount::{Amount, DecimalValue};
use crate::config::UserConfig;
use crate::dict::FieldDict;
use crate::error::{Error, ErrorView, UserErrorKind, UserErrorView};
use crate::forms::formutils::{
    format_money_value, lemma_recording_again, money_text, record_all, record_fields,
    resolve_fields, resolved_entries, resolved_name, writes_view, FieldWrite, FormFieldMap,
    FormTemplate, Recorded, TemplateFieldView,
};
use crate::taxcalculator::tax_rate;
use crate::views::{option_view, result_view};
use vstd::prelude::*;
use vstd::string::StringExecFns;

verus! {

/// The fields of the annual report.
#[derive(Clone, Copy, Debug, PartialEq, Eq, Structural)]
pub enum FormField {
    UserJmbg,
    UserName,
    TaxYearLast2,
    UserAddress,
    UserPhone,
    UserEmail,
    GipIncome,
    SprExpense,
    SprIncome,
    AgroExpense,
    AgroIncome,
    RentExpense,
    RentIncome,
    Rent2Expense,
    Rent2Income,
    AugExpense,
    AugIncome,
    PreviousExpense,
    ExpenseSum,
    IncomeSum,
    ExpenseTotal,
    IncomeTotal,
    PersonalDeduction,
    HealthDeduction,
    InterestDeduction,
    TotalDeduction,
    UserNameP2,
    UserJmbgP2,
    TaxYearLast2P2,
    ExpenseTotalP2,
    IncomeTotalP2,
    TotalDeductionP2,
    TaxBaseP2,
    TaxTotalP2,
    TaxDeductionF27P2,
    F29P2,
    TaxPaidP2,
    ExternalPaidTaxP2,
    RequestReturnP2,
    ReturnTotalP2,
    AccountNumberP2,
    DateP2,
    PeriodStart,
    PeriodEnd,
}

/// The number of positions of the template.
pub const FIELD_COUNT: usize = 44;

/// The position of a field in the template.
pub open spec fn field_offset(field: FormField) -> int {
    match field {
        FormField::UserJmbg => 0,
        FormField::UserName => 1,
        FormField::TaxYearLast2 => 2,
        FormField::UserAddress => 3,
        FormField::UserPhone => 4,
        FormField::UserEmail => 5,
        FormField::GipIncome => 6,
        FormField::SprExpense => 7,
        FormField::SprIncome => 8,
        FormField::AgroExpense => 9,
        FormField::AgroIncome => 10,
        FormField::RentExpense => 11,
        FormField::RentIncome => 12,
        FormField::Rent2Expense => 13,
        FormField::Rent2Income => 14,
        FormField::AugExpense => 15,
        FormField::AugIncome => 16,
        FormField::PreviousExpense => 17,
        FormField::ExpenseSum => 18,
        FormField::IncomeSum => 19,
        FormField::ExpenseTotal => 20,
        FormField::IncomeTotal => 21,
        FormField::PersonalDeduction => 22,
        FormField::HealthDeduction => 23,
        FormField::InterestDeduction => 24,
        FormField::TotalDeduction => 25,
        FormField::UserNameP2 => 26,
        FormField::UserJmbgP2 => 27,
        FormField::TaxYearLast2P2 => 28,
        FormField::ExpenseTotalP2 => 29,
        FormField::IncomeTotalP2 => 30,
        FormField::TotalDeductionP2 => 31,
        FormField::TaxBaseP2 => 32,
        FormField::TaxTotalP2 => 33,
        FormField::TaxDeductionF27P2 => 34,
        FormField::F29P2 => 35,
        FormField::TaxPaidP2 => 36,
        FormField::ExternalPaidTaxP2 => 37,
        FormField::RequestReturnP2 => 38,
        FormField::ReturnTotalP2 => 39,
        FormField::AccountNumberP2 => 40,
        FormField::DateP2 => 41,
        FormField::PeriodStart => 42,
        FormField::PeriodEnd => 43,
    }
}

impl FormField {
    /// The position of the field in the template.
    pub fn index(self) -> (i: usize)
        ensures
            i == field_offset(self),
            i < FIELD_COUNT,
    {
        match self {
            FormField::UserJmbg => 0,
            FormField::UserName => 1,
            FormField::TaxYearLast2 => 2,
            FormField::UserAddress => 3,
            FormField::UserPhone => 4,
            FormField::UserEmail => 5,
            FormField::GipIncome => 6,
            FormField::SprExpense => 7,
            FormField::SprIncome => 8,
            FormField::AgroExpense => 9,
            FormField::AgroIncome => 10,
            FormField::RentExpense => 11,
            FormField::RentIncome => 12,
            FormField::Rent2Expense => 13,
            FormField::Rent2Income => 14,
            FormField::AugExpense => 15,
            FormField::AugIncome => 16,
            FormField::PreviousExpense => 17,
            FormField::ExpenseSum => 18,
            FormField::IncomeSum => 19,
            FormField::ExpenseTotal => 20,
            FormField::IncomeTotal => 21,
            FormField::PersonalDeduction => 22,
            FormField::HealthDeduction => 23,
            FormField::InterestDeduction => 24,
            FormField::TotalDeduction => 25,
            FormField::UserNameP2 => 26,
            FormField::UserJmbgP2 => 27,
            FormField::TaxYearLast2P2 => 28,
            FormField::ExpenseTotalP2 => 29,
            FormField::IncomeTotalP2 => 30,
            FormField::TotalDeductionP2 => 31,
            FormField::TaxBaseP2 => 32,
            FormField::TaxTotalP2 => 33,
            FormField::TaxDeductionF27P2 => 34,
            FormField::F29P2 => 35,
            FormField::TaxPaidP2 => 36,
            FormField::ExternalPaidTaxP2 => 37,
            FormField::RequestReturnP2 => 38,
            FormField::ReturnTotalP2 => 39,
            FormField::AccountNumberP2 => 40,
            FormField::DateP2 => 41,
            FormField::PeriodStart => 42,
            FormField::PeriodEnd => 43,
        }
    }
}

/// An income and the tax already paid on it.
#[derive(Clone, Copy, Debug, PartialEq, Eq, Structural)]
pub struct TaxInfo {
    pub income: Amount,
    pub tax_paid: Amount,
}

/// What a tax info is to the contracts.
pub struct TaxInfoView {
    pub income: DecimalValue,
    pub tax_paid: DecimalValue,
}

impl View for TaxInfo {
    type V = TaxInfoView;

    open spec fn view(&self) -> TaxInfoView {
        TaxInfoView { income: self.income@, tax_paid: self.tax_paid@ }
    }
}

/// The deductions that the report claims.
#[derive(Clone, Copy, Debug, PartialEq, Eq, Structural)]
pub struct Deductions {
    pub personal: Amount,
    pub health: Amount,
    pub interest: Amount,
}

/// What the deductions are to the contracts.
pub struct DeductionsView {
    pub personal: DecimalValue,
    pub health: DecimalValue,
    pub interest: DecimalValue,
}

impl View for Deductions {
    type V = DeductionsView;

    open spec fn view(&self) -> DeductionsView {
        DeductionsView {
            personal: self.personal@,
            health: self.health@,
            interest: self.interest@,
        }
    }
}

/// No income and no tax.
pub open spec fn no_tax_info() -> TaxInfoView {
    TaxInfoView { income: DecimalValue::zero(), tax_paid: DecimalValue::zero() }
}

/// The sum of two tax infos. `None` where a sum overflows.
pub open spec fn tax_info_sum(a: TaxInfoView, b: TaxInfoView) -> Option<TaxInfoView> {
    if a.income.checked_add(b.income) is Some && a.tax_paid.checked_add(b.tax_paid) is Some {
        Some(
            TaxInfoView {
                income: a.income.checked_add(b.income).unwrap(),
                tax_paid: a.tax_paid.checked_add(b.tax_paid).unwrap(),
            },
        )
    } else {
        None
    }
}

/// A tax info with another added, where there is another.
pub open spec fn with_option_view(total: Option<TaxInfoView>, info: Option<TaxInfoView>) -> Option<
    TaxInfoView,
> {
    match (total, info) {
        (Some(t), Some(i)) => tax_info_sum(t, i),
        (Some(t), None) => Some(t),
        (None, _) => None,
    }
}

/// The income and the tax paid of whichever of the two sources are there.
pub open spec fn gathered_info(gip: Option<TaxInfoView>, ams: Option<TaxInfoView>) -> Option<
    TaxInfoView,
> {
    with_option_view(with_option_view(Some(no_tax_info()), gip), ams)
}

/// The sum of the three deductions. `None` where it overflows.
pub open spec fn deductions_total(d: DeductionsView) -> Option<DecimalValue> {
    match d.personal.checked_add(d.health) {
        Some(sum) => sum.checked_add(d.interest),
        None => None,
    }
}

/// The figures of the report.
pub struct ReportFigures {
    /// The income and the tax paid of all sources.
    pub total: TaxInfoView,
    pub deductions: DeductionsView,
    pub total_deduction: DecimalValue,
    /// The income less the expenses, which are none, and the deductions.
    pub tax_base: DecimalValue,
    /// A tenth of the tax base.
    pub tax_amount: DecimalValue,
    /// The tax amount less the tax paid: what is owed, or due back if
    /// negative.
    pub balance: DecimalValue,
}

/// The figures of a report. `None` where an amount overflows.
pub open spec fn report_figures(
    gip: Option<TaxInfoView>,
    ams: Option<TaxInfoView>,
    deductions: DeductionsView,
) -> Option<ReportFigures> {
    match (gathered_info(gip, ams), deductions_total(deductions)) {
        (Some(total), Some(total_deduction)) => match total.income.checked_sub(
            DecimalValue::zero(),
        ) {
            Some(after_expenses) => match after_expenses.checked_sub(total_deduction) {
                Some(tax_base) => match tax_base.checked_mul(tax_rate()) {
                    Some(tax_amount) => match tax_amount.checked_sub(total.tax_paid) {
                        Some(balance) => Some(
                            ReportFigures {
                                total,
                                deductions,
                                total_deduction,
                                tax_base,
                                tax_amount,
                                balance,
                            },
                        ),
                        None => None,
                    },
                    None => None,
                },
                None => None,
            },
            None => None,
        },
        _ => None,
    }
}

/// The income field of a source, where the source is there.
pub open spec fn source_writes(field: FormField, info: Option<TaxInfoView>) -> Seq<
    (int, Seq<char>),
> {
    match info {
        Some(i) => seq![(field_offset(field), money_text(i.income))],
        None => Seq::empty(),
    }
}

/// The sums, deductions and tax figures of the report, in the order in which
/// they are written.
pub open spec fn figure_writes(f: ReportFigures) -> Seq<(int, Seq<char>)> {
    seq![
        (field_offset(FormField::IncomeSum), money_text(f.total.income)),
        (field_offset(FormField::ExpenseSum), money_text(DecimalValue::zero())),
        (field_offset(FormField::ExpenseTotal), money_text(DecimalValue::zero())),
        (field_offset(FormField::ExpenseTotalP2), money_text(DecimalValue::zero())),
        (field_offset(FormField::IncomeTotal), money_text(f.total.income)),
        (field_offset(FormField::IncomeTotalP2), money_text(f.total.income)),
        (field_offset(FormField::PersonalDeduction), money_text(f.deductions.personal)),
        (field_offset(FormField::HealthDeduction), money_text(f.deductions.health)),
        (field_offset(FormField::InterestDeduction), money_text(f.deductions.interest)),
        (field_offset(FormField::TotalDeduction), money_text(f.total_deduction)),
        (field_offset(FormField::TotalDeductionP2), money_text(f.total_deduction)),
        (field_offset(FormField::TaxBaseP2), money_text(f.tax_base)),
        (field_offset(FormField::TaxTotalP2), money_text(f.tax_amount)),
        (field_offset(FormField::TaxPaidP2), money_text(f.total.tax_paid)),
        (field_offset(FormField::ReturnTotalP2), money_text(f.balance)),
    ]
}

/// Everything that completing the report writes, in order.
pub open spec fn report_writes(
    gip: Option<TaxInfoView>,
    ams: Option<TaxInfoView>,
    figures: ReportFigures,
) -> Seq<(int, Seq<char>)> {
    source_writes(FormField::GipIncome, gip) + source_writes(FormField::AugIncome, ams)
        + figure_writes(figures)
}

/// The identity of the user, in the order in which it is written.
pub open spec fn user_writes(user: UserConfig) -> Seq<(int, Seq<char>)> {
    seq![
        (field_offset(FormField::UserName), user.name@),
        (field_offset(FormField::UserNameP2), user.name@),
        (field_offset(FormField::UserJmbg), user.jmbg@),
        (field_offset(FormField::UserJmbgP2), user.jmbg@),
        (field_offset(FormField::UserAddress), user.address@),
        (field_offset(FormField::UserPhone), text_or_empty(user.phone)),
        (field_offset(FormField::UserEmail), text_or_empty(user.email)),
    ]
}

/// The text of an optional string, the empty text where there is none.
pub open spec fn text_or_empty(s: Option<String>) -> Seq<char> {
    match s {
        Some(text) => text@,
        None => Seq::empty(),
    }
}

/// A year without its first two characters.
pub open spec fn year_last_two(year: Seq<char>) -> Seq<char> {
    year.subrange(2, year.len() as int)
}

/// The tax period of a year: the whole year, and the year's last digits on
/// both pages.
pub open spec fn year_writes(year: Seq<char>) -> Seq<(int, Seq<char>)> {
    seq![
        (field_offset(FormField::PeriodStart), "0101"@),
        (field_offset(FormField::PeriodEnd), "3112"@),
        (field_offset(FormField::TaxYearLast2), year_last_two(year)),
        (field_offset(FormField::TaxYearLast2P2), year_last_two(year)),
    ]
}

/// The name under which the value at a position of this form is handed out.
pub open spec fn gpd_field_names(template: Seq<TemplateFieldView>) -> spec_fn(int) -> Option<
    Seq<char>,
> {
    |k: int| resolved_name(template, None, k)
}

impl Default for Deductions {
    fn default() -> (d: Deductions)
        ensures
            d.personal@ == DecimalValue::zero(),
            d.health@ == DecimalValue::zero(),
            d.interest@ == DecimalValue::zero(),
    {
        Deductions { personal: Amount::zero(), health: Amount::zero(), interest: Amount::zero() }
    }
}

impl Deductions {
    /// The sum of the three deductions, `None` where it overflows.
    pub fn get_total(&self) -> (r: Option<Amount>)
        ensures
            option_view(r) == deductions_total(self@),
    {
        match self.personal.checked_add(self.health) {
            Some(sum) => sum.checked_add(self.interest),
            None => None,
        }
    }
}

impl TaxInfo {
    /// The sum of two tax infos, `None` where a sum overflows.
    pub fn checked_add(self, rhs: TaxInfo) -> (r: Option<TaxInfo>)
        ensures
            option_view(r) == tax_info_sum(self@, rhs@),
    {
        let income = match self.income.checked_add(rhs.income) {
            Some(a) => a,
            None => {
                return None;
            },
        };
        let tax_paid = match self.tax_paid.checked_add(rhs.tax_paid) {
            Some(a) => a,
            None => {
                return None;
            },
        };
        Some(TaxInfo { income, tax_paid })
    }
}

fn money_write(index: usize, amount: Amount) -> (w: FieldWrite)
    ensures
        w@ == (index as int, money_text(amount@)),
{
    FieldWrite { index, value: format_money_value(amount) }
}

fn text_write(index: usize, text: &str) -> (w: FieldWrite)
    ensures
        w@ == (index as int, text@),
{
    FieldWrite { index, value: String::from_str(text) }
}

fn optional_write(index: usize, text: &Option<String>) -> (w: FieldWrite)
    ensures
        w@ == (index as int, text_or_empty(*text)),
{
    match text {
        Some(t) => FieldWrite { index, value: t.clone() },
        None => FieldWrite { index, value: String::new() },
    }
}

/// A session on the annual report, as the contracts see it.
pub struct GpdSession {
    /// The template, with the texts set so far.
    pub template: Seq<TemplateFieldView>,
    /// The values written so far, each under its position.
    pub written: Map<int, Seq<char>>,
    /// The income of the first source, if it was given.
    pub gip: Option<TaxInfoView>,
    /// The income of the monthly forms, if it was given.
    pub ams: Option<TaxInfoView>,
    /// The deductions; all zero if none were given.
    pub deductions: DeductionsView,
}

/// The message for a year that is too short to have a last part.
pub open spec fn short_year_message() -> Seq<char> {
    "Year must have four digits"@
}

impl GpdSession {
    /// What writing a list of values does to the template and to the
    /// written values.
    pub open spec fn recorded(self, writes: Seq<(int, Seq<char>)>) -> Recorded {
        record_all(self.template, self.written, writes)
    }

    /// The session after a list of values was written.
    pub open spec fn after_writes(self, writes: Seq<(int, Seq<char>)>) -> GpdSession {
        GpdSession {
            template: self.recorded(writes).template,
            written: self.recorded(writes).fields,
            gip: self.gip,
            ams: self.ams,
            deductions: self.deductions,
        }
    }

    /// The session after the tax period of a year was written. A year of
    /// less than two characters writes nothing.
    pub open spec fn with_year(self, year: Seq<char>) -> GpdSession {
        if year.len() < 2 {
            self
        } else {
            self.after_writes(year_writes(year))
        }
    }

    /// What writing the tax period of a year returns.
    pub open spec fn year_result(self, year: Seq<char>) -> Result<(), ErrorView> {
        if year.len() < 2 {
            Err(ErrorView::UserError(UserErrorView::Generic(short_year_message())))
        } else {
            self.recorded(year_writes(year)).result()
        }
    }

    /// The figures of the report.
    pub open spec fn figures(self) -> Option<ReportFigures> {
        report_figures(self.gip, self.ams, self.deductions)
    }

    /// The session after the report was completed. Where a figure overflows
    /// nothing is written.
    pub open spec fn completed(self) -> GpdSession {
        match self.figures() {
            Some(f) => self.after_writes(report_writes(self.gip, self.ams, f)),
            None => self,
        }
    }

    /// What writing the figures returns.
    pub open spec fn completion_result(self) -> Result<(), ErrorView> {
        match self.figures() {
            Some(f) => self.recorded(report_writes(self.gip, self.ams, f)).result(),
            None => Err(ErrorView::AmountOverflow),
        }
    }

    /// The written values by field name, in the order of their positions.
    pub open spec fn dictionary(self) -> Seq<(Seq<char>, Seq<char>)> {
        resolved_entries(self.written, gpd_field_names(self.template), FIELD_COUNT as nat)
    }

    /// What completing the report returns: the dictionary of the completed
    /// session, or why the report could not be completed.
    pub open spec fn to_dict_result(self) -> Result<Seq<(Seq<char>, Seq<char>)>, ErrorView> {
        match self.completion_result() {
            Ok(_) => Ok(self.completed().dictionary()),
            Err(e) => Err(e),
        }
    }
}

/// Completing a report twice leaves what completing it once leaves,
/// wherever the template takes every value.
pub proof fn lemma_completing_again_changes_nothing(session: GpdSession)
    requires
        session.completion_result() is Ok,
    ensures
        session.completed().completion_result() is Ok,
        session.completed().completed() == session.completed(),
{
    let figures = session.figures().unwrap();
    lemma_recording_again(
        session.template,
        session.written,
        report_writes(session.gip, session.ams, figures),
    );
}

/// A session that fills the annual report.
pub struct GpdForm {
    pdf_form: FormTemplate,
    fields: FormFieldMap,
    gip_info: Option<TaxInfo>,
    ams_info: Option<TaxInfo>,
    deductions: Deductions,
}

impl View for GpdForm {
    type V = GpdSession;

    closed spec fn view(&self) -> GpdSession {
        GpdSession {
            template: self.pdf_form@,
            written: self.fields@,
            gip: option_view(self.gip_info),
            ams: option_view(self.ams_info),
            deductions: self.deductions@,
        }
    }
}

impl GpdForm {
    /// The value written at a position, if any.
    pub fn field_value(&self, index: usize) -> (r: Option<&String>)
        ensures
            self@.written.contains_key(index as int) ==> option_view(r) == Some(
                self@.written[index as int],
            ),
            !self@.written.contains_key(index as int) ==> r is None,
    {
        self.fields.get(index)
    }

    /// Writes a value into a field. The value is kept among the written
    /// values in any case; the result says whether the template took it.
    pub fn fill_field(&mut self, field: FormField, value: String) -> (r: Result<(), Error>)
        ensures
            final(self)@ == old(self)@.after_writes(seq![(field_offset(field), value@)]),
            result_view(r) == old(self)@.recorded(seq![(field_offset(field), value@)]).result(),
    {
        let mut writes: Vec<FieldWrite> = Vec::new();
        writes.push(FieldWrite { index: field.index(), value });
        assert(writes_view(writes@) =~= seq![(field_offset(field), value@)]);
        record_fields(&mut self.pdf_form, &mut self.fields, writes)
    }

    /// Writes the identity of the user on both pages, up to the first value
    /// that the template refuses. A missing phone number or address is
    /// written as an empty text.
    pub fn fill_user_info(&mut self, value: &UserConfig) -> (r: Result<(), Error>)
        ensures
            final(self)@ == old(self)@.after_writes(user_writes(*value)),
            result_view(r) == old(self)@.recorded(user_writes(*value)).result(),
    {
        let mut writes: Vec<FieldWrite> = Vec::new();
        writes.push(text_write(FormField::UserName.index(), value.name.as_str()));
        writes.push(text_write(FormField::UserNameP2.index(), value.name.as_str()));
        writes.push(text_write(FormField::UserJmbg.index(), value.jmbg.as_str()));
        writes.push(text_write(FormField::UserJmbgP2.index(), value.jmbg.as_str()));
        writes.push(text_write(FormField::UserAddress.index(), value.address.as_str()));
        writes.push(optional_write(FormField::UserPhone.index(), &value.phone));
        writes.push(optional_write(FormField::UserEmail.index(), &value.email));
        assert(writes_view(writes@) =~= user_writes(*value));
        record_fields(&mut self.pdf_form, &mut self.fields, writes)
    }

    /// Writes the tax period of a year: from the first of January to the
    /// last of December, and the year without its first two characters on
    /// both pages. A year of less than two characters is refused, and
    /// nothing is written.
    pub fn fill_year_info(&mut self, year: String) -> (r: Result<(), Error>)
        ensures
            final(self)@ == old(self)@.with_year(year@),
            result_view(r) == old(self)@.year_result(year@),
    {
        let n: usize = year.as_str().unicode_len();
        if n < 2 {
            return Err(
                Error::UserError(
                    UserErrorKind::Generic(String::from_str("Year must have four digits")),
                ),
            );
        }
        let year_last_2 = year.as_str().substring_char(2, n);
        let mut writes: Vec<FieldWrite> = Vec::new();
        writes.push(text_write(FormField::PeriodStart.index(), "0101"));
        writes.push(text_write(FormField::PeriodEnd.index(), "3112"));
        writes.push(text_write(FormField::TaxYearLast2.index(), year_last_2));
        writes.push(text_write(FormField::TaxYearLast2P2.index(), year_last_2));
        assert(writes_view(writes@) =~= year_writes(year@));
        record_fields(&mut self.pdf_form, &mut self.fields, writes)
    }

    /// Sets the income of the first source and the tax paid on it.
    pub fn add_gip_info(&mut self, gip_income: Amount, gip_tax_paid: Amount)
        ensures
            final(self)@ == (GpdSession {
                gip: Some(TaxInfoView { income: gip_income@, tax_paid: gip_tax_paid@ }),
                ..old(self)@
            }),
    {
        self.gip_info = Some(TaxInfo { income: gip_income, tax_paid: gip_tax_paid });
    }

    /// Sets the income of the monthly forms and the tax paid on it.
    pub fn add_ams_info(&mut self, ams_income: Amount, ams_tax_paid: Amount)
        ensures
            final(self)@ == (GpdSession {
                ams: Some(TaxInfoView { income: ams_income@, tax_paid: ams_tax_paid@ }),
                ..old(self)@
            }),
    {
        self.ams_info = Some(TaxInfo { income: ams_income, tax_paid: ams_tax_paid });
    }

    /// Sets the deductions.
    pub fn add_deductions(&mut self, personal: Amount, health: Amount, interest: Amount)
        ensures
            final(self)@ == (GpdSession {
                deductions: DeductionsView {
                    personal: personal@,
                    health: health@,
                    interest: interest@,
                },
                ..old(self)@
            }),
    {
        self.deductions = Deductions { personal, health, interest };
    }

    fn figures(&self) -> (r: Option<Figures>)
        ensures
            option_view(r) == self@.figures(),
    {
        let mut total = TaxInfo { income: Amount::zero(), tax_paid: Amount::zero() };
        match self.gip_info {
            Some(gip) => match total.checked_add(gip) {
                Some(sum) => {
                    total = sum;
                },
                None => {
                    return None;
                },
            },
            None => {},
        }
        match self.ams_info {
            Some(ams) => match total.checked_add(ams) {
                Some(sum) => {
                    total = sum;
                },
                None => {
                    return None;
                },
            },
            None => {},
        }
        assert(Some(total@) == gathered_info(self@.gip, self@.ams));
        let total_deduction = match self.deductions.get_total() {
            Some(a) => a,
            None => {
                return None;
            },
        };
        let after_expenses = match total.income.checked_sub(Amount::zero()) {
            Some(a) => a,
            None => {
                return None;
            },
        };
        let tax_base = match after_expenses.checked_sub(total_deduction) {
            Some(a) => a,
            None => {
                return None;
            },
        };
        let tax_amount = match tax_base.checked_mul(Amount::new(10, 2)) {
            Some(a) => a,
            None => {
                return None;
            },
        };
        let balance = match tax_amount.checked_sub(total.tax_paid) {
            Some(a) => a,
            None => {
                return None;
            },
        };
        Some(
            Figures {
                total,
                deductions: self.deductions,
                total_deduction,
                tax_base,
                tax_amount,
                balance,
            },
        )
    }

    /// Completes the report and hands out its values by field name. The
    /// income of each source that was given is written, then the sums, the
    /// deductions, the tax base, the tax amount, the tax paid and the
    /// balance; expenses are none. Where an amount overflows nothing is
    /// written. The values are written in order, up to the first that the
    /// template refuses; then they are taken in the order of their
    /// positions, each under the name that the template declares for its
    /// field, and those without a readable name are dropped.
    pub fn to_dict(&mut self) -> (r: Result<FieldDict, Error>)
        ensures
            final(self)@ == old(self)@.completed(),
            result_view(r) == old(self)@.to_dict_result(),
    {
        let f = match self.figures() {
            Some(f) => f,
            None => {
                return Err(Error::AmountOverflow);
            },
        };
        let mut writes: Vec<FieldWrite> = Vec::new();
        match self.gip_info {
            Some(gip) => {
                writes.push(money_write(FormField::GipIncome.index(), gip.income));
            },
            None => {},
        }
        assert(writes_view(writes@) =~= source_writes(FormField::GipIncome, self@.gip));
        let ghost first = writes_view(writes@);
        match self.ams_info {
            Some(ams) => {
                writes.push(money_write(FormField::AugIncome.index(), ams.income));
            },
            None => {},
        }
        assert(writes_view(writes@) =~= first + source_writes(FormField::AugIncome, self@.ams));
        let ghost sources = writes_view(writes@);
        writes.push(money_write(FormField::IncomeSum.index(), f.total.income));
        writes.push(money_write(FormField::ExpenseSum.index(), Amount::zero()));
        writes.push(money_write(FormField::ExpenseTotal.index(), Amount::zero()));
        writes.push(money_write(FormField::ExpenseTotalP2.index(), Amount::zero()));
        writes.push(money_write(FormField::IncomeTotal.index(), f.total.income));
        writes.push(money_write(FormField::IncomeTotalP2.index(), f.total.income));
        writes.push(money_write(FormField::PersonalDeduction.index(), f.deductions.personal));
        writes.push(money_write(FormField::HealthDeduction.index(), f.deductions.health));
        writes.push(money_write(FormField::InterestDeduction.index(), f.deductions.interest));
        writes.push(money_write(FormField::TotalDeduction.index(), f.total_deduction));
        writes.push(money_write(FormField::TotalDeductionP2.index(), f.total_deduction));
        writes.push(money_write(FormField::TaxBaseP2.index(), f.tax_base));
        writes.push(money_write(FormField::TaxTotalP2.index(), f.tax_amount));
        writes.push(money_write(FormField::TaxPaidP2.index(), f.total.tax_paid));
        writes.push(money_write(FormField::ReturnTotalP2.index(), f.balance));
        assert(writes_view(writes@) =~= sources + figure_writes(f@));
        match record_fields(&mut self.pdf_form, &mut self.fields, writes) {
            Ok(()) => {},
            Err(e) => {
                return Err(e);
            },
        }
        Ok(resolve_fields(&self.pdf_form, &self.fields, None, FIELD_COUNT))
    }
}

/// The figures of a report as they are computed.
pub struct Figures {
    pub total: TaxInfo,
    pub deductions: Deductions,
    pub total_deduction: Amount,
    pub tax_base: Amount,
    pub tax_amount: Amount,
    pub balance: Amount,
}

impl View for Figures {
    type V = ReportFigures;

    open spec fn view(&self) -> ReportFigures {
        ReportFigures {
            total: self.total@,
            deductions: self.deductions@,
            total_deduction: self.total_deduction@,
            tax_base: self.tax_base@,
            tax_amount: self.tax_amount@,
            balance: self.balance@,
        }
    }
}

/// Opens a session on a template: nothing is written yet, no source is
/// given, and the deductions are zero.
pub fn load_gpd_form(template: FormTemplate) -> (form: GpdForm)
    ensures
        form@ == (GpdSession {
            template: template@,
            written: Map::<int, Seq<char>>::empty(),
            gip: None,
            ams: None,
            deductions: DeductionsView {
                personal: DecimalValue::zero(),
                health: DecimalValue::zero(),
                interest: DecimalValue::zero(),
            },
        }),
{
    GpdForm {
        pdf_form: template,
        fields: FormFieldMap::new(),
        gip_info: None,
        ams_info: None,
        deductions: Deductions::default(),
    }
}

} // verus!

//! The monthly payment form: its field layout, its income lines and the
//! session that fills it.
//!
//! The positions below belong to one published template. They are data of
//! that template: a new edition of the form needs a new table.

use crate::amount::{decimal_parsed, Amount, DecimalValue};
use crate::db::{AmsInfo, AmsInfoView};
use crate::dict::FieldDict;
use crate::error::{Error, ErrorView, PdfErrorKind, ValueError};
use crate::forms::formutils::{
    format_money_value, lemma_recording_again, money_text, record_all, record_fields,
    resolve_fields, resolved_entries, resolved_name, writes_view, FieldWrite, FormFieldMap,
    FormTemplate, NamePatch, Recorded, TemplateFieldView,
};
use crate::taxcalculator::{
    health_insurance_part, health_insurance_part_value, tax_amount, tax_amount_value, tax_base,
    tax_base_value,
};
use crate::views::{option_view, result_view};
use vstd::prelude::*;
use vstd::string::StringExecFns;

verus! {

/// The fields of the form that occur once.
#[derive(Clone, Copy, Debug, PartialEq, Eq, Structural)]
pub enum FormField {
    PageNumber,
    PageCount,
    UserName,
    UserJmbg,
    UserAddress,
    PaymentDateDay,
    PaymentDateMonth,
    PaymentDateYear,
    TaxPeriodMonth,
    TaxPeriodYearLast2Digits,
    CompanyName,
    CompanyAddress,
    CompanyCountry,
    HealthInsuranceTotal,
    TaxBaseTotal,
    TaxAmountTotal,
    TaxPairAbroadTotal,
    TaxToPayTotal,
    Date,
}

/// The fields that each income line has.
#[derive(Clone, Copy, Debug, PartialEq, Eq, Structural)]
pub enum RepeatingFormField {
    IncomeValue,
    HealthInsurance,
    TaxBase,
    TaxAmount,
    TaxPaidAbroad,
    TaxToPay,
}

/// The position at which the income lines begin.
pub const REPEATING_FIELDS_START: u32 = 13;

/// The number of income lines that the form has room for.
pub const REPEATED_LINES: u32 = 5;

/// The number of fields of one income line.
pub const REPEATED_FIELDS_COUNT: u32 = 6;

/// The number of positions of the template.
pub const FIELD_COUNT: usize = 49;

/// The position of a field that occurs once.
pub open spec fn field_offset(field: FormField) -> int {
    match field {
        FormField::PageNumber => 0,
        FormField::PageCount => 1,
        FormField::UserName => 2,
        FormField::UserJmbg => 3,
        FormField::UserAddress => 4,
        FormField::PaymentDateDay => 5,
        FormField::PaymentDateMonth => 6,
        FormField::PaymentDateYear => 7,
        FormField::TaxPeriodMonth => 8,
        FormField::TaxPeriodYearLast2Digits => 9,
        FormField::CompanyName => 10,
        FormField::CompanyAddress => 11,
        FormField::CompanyCountry => 12,
        FormField::HealthInsuranceTotal => 43,
        FormField::TaxBaseTotal => 44,
        FormField::TaxAmountTotal => 45,
        FormField::TaxPairAbroadTotal => 46,
        FormField::TaxToPayTotal => 47,
        FormField::Date => 48,
    }
}

/// The place of a field within its income line.
pub open spec fn repeating_base(field: RepeatingFormField) -> int {
    match field {
        RepeatingFormField::IncomeValue => 0,
        RepeatingFormField::HealthInsurance => 1,
        RepeatingFormField::TaxBase => 2,
        RepeatingFormField::TaxAmount => 3,
        RepeatingFormField::TaxPaidAbroad => 4,
        RepeatingFormField::TaxToPay => 5,
    }
}

/// The position of a field of an income line.
pub open spec fn repeating_offset(line: int, field: RepeatingFormField) -> int {
    repeating_base(field) + REPEATING_FIELDS_START + line * REPEATED_FIELDS_COUNT
}

impl FormField {
    /// The position of the field in the template.
    pub fn index(self) -> (i: usize)
        ensures
            i == field_offset(self),
            i < FIELD_COUNT,
    {
        match self {
            FormField::PageNumber => 0,
            FormField::PageCount => 1,
            FormField::UserName => 2,
            FormField::UserJmbg => 3,
            FormField::UserAddress => 4,
            FormField::PaymentDateDay => 5,
            FormField::PaymentDateMonth => 6,
            FormField::PaymentDateYear => 7,
            FormField::TaxPeriodMonth => 8,
            FormField::TaxPeriodYearLast2Digits => 9,
            FormField::CompanyName => 10,
            FormField::CompanyAddress => 11,
            FormField::CompanyCountry => 12,
            FormField::HealthInsuranceTotal => 43,
            FormField::TaxBaseTotal => 44,
            FormField::TaxAmountTotal => 45,
            FormField::TaxPairAbroadTotal => 46,
            FormField::TaxToPayTotal => 47,
            FormField::Date => 48,
        }
    }
}

impl RepeatingFormField {
    /// The place of the field within its income line.
    pub fn base(self) -> (i: usize)
        ensures
            i == repeating_base(self),
    {
        match self {
            RepeatingFormField::IncomeValue => 0,
            RepeatingFormField::HealthInsurance => 1,
            RepeatingFormField::TaxBase => 2,
            RepeatingFormField::TaxAmount => 3,
            RepeatingFormField::TaxPaidAbroad => 4,
            RepeatingFormField::TaxToPay => 5,
        }
    }
}

/// The position of a field of the income line `line`. The form has five
/// lines; a line beyond them is refused and never mapped onto other fields.
pub fn repeating_field_index(line: u32, field: RepeatingFormField) -> (r: Result<usize, Error>)
    ensures
        line < REPEATED_LINES ==> r == Ok::<usize, Error>(
            repeating_offset(line as int, field) as usize,
        ),
        line >= REPEATED_LINES ==> r == Err::<usize, Error>(Error::RowLimitExceeded),
{
    if line >= REPEATED_LINES {
        Err(Error::RowLimitExceeded)
    } else {
        Ok(row_index(line as usize, field))
    }
}

fn row_index(line: usize, field: RepeatingFormField) -> (i: usize)
    requires
        line < REPEATED_LINES,
    ensures
        i == repeating_offset(line as int, field),
        i < FIELD_COUNT,
{
    field.base() + 13 + line * 6
}

/// The fields of the income lines lie between the flat fields before them
/// and the totals after them: no field of a line is a flat field.
pub proof fn lemma_rows_keep_clear_of_flat_fields(
    line: int,
    field: RepeatingFormField,
    flat: FormField,
)
    requires
        0 <= line < REPEATED_LINES,
    ensures
        REPEATING_FIELDS_START <= repeating_offset(line, field) < field_offset(
            FormField::HealthInsuranceTotal,
        ),
        repeating_offset(line, field) != field_offset(flat),
{
}

/// No two fields of the income lines share a position.
pub proof fn lemma_rows_do_not_overlap(
    line: int,
    field: RepeatingFormField,
    other_line: int,
    other_field: RepeatingFormField,
)
    requires
        0 <= line < REPEATED_LINES,
        0 <= other_line < REPEATED_LINES,
        repeating_offset(line, field) == repeating_offset(other_line, other_field),
    ensures
        line == other_line,
        field == other_field,
{
}

/// The amounts of one income: the income itself and what follows from it.
#[derive(Clone, Copy, Debug, PartialEq, Eq, Structural)]
pub struct IncomeLine {
    pub value: Amount,
    pub health_insurance: Amount,
    pub tax_base: Amount,
    pub tax_amount: Amount,
    pub tax_paid_abroad: Amount,
    pub tax_to_pay: Amount,
}

/// What an income line is to the contracts.
pub struct IncomeLineView {
    pub value: DecimalValue,
    pub health_insurance: DecimalValue,
    pub tax_base: DecimalValue,
    pub tax_amount: DecimalValue,
    pub tax_paid_abroad: DecimalValue,
    pub tax_to_pay: DecimalValue,
}

impl View for IncomeLine {
    type V = IncomeLineView;

    open spec fn view(&self) -> IncomeLineView {
        IncomeLineView {
            value: self.value@,
            health_insurance: self.health_insurance@,
            tax_base: self.tax_base@,
            tax_amount: self.tax_amount@,
            tax_paid_abroad: self.tax_paid_abroad@,
            tax_to_pay: self.tax_to_pay@,
        }
    }
}

/// The income line of a gross income and the tax paid abroad on it: the
/// health insurance, the tax base and the tax amount of the income, and the
/// tax amount less what was paid abroad. `None` where an amount overflows.
pub open spec fn income_line_value(gross: DecimalValue, paid_abroad: DecimalValue) -> Option<
    IncomeLineView,
> {
    if health_insurance_part_value(gross) is Some && tax_base_value(gross) is Some
        && tax_amount_value(gross) is Some && tax_amount_value(gross).unwrap().checked_sub(
        paid_abroad,
    ) is Some {
        Some(
            IncomeLineView {
                value: gross,
                health_insurance: health_insurance_part_value(gross).unwrap(),
                tax_base: tax_base_value(gross).unwrap(),
                tax_amount: tax_amount_value(gross).unwrap(),
                tax_paid_abroad: paid_abroad,
                tax_to_pay: tax_amount_value(gross).unwrap().checked_sub(paid_abroad).unwrap(),
            },
        )
    } else {
        None
    }
}

/// The sum of two income lines, amount by amount. `None` where one overflows.
pub open spec fn line_sum(a: IncomeLineView, b: IncomeLineView) -> Option<IncomeLineView> {
    if a.value.checked_add(b.value) is Some && a.health_insurance.checked_add(
        b.health_insurance,
    ) is Some && a.tax_base.checked_add(b.tax_base) is Some && a.tax_amount.checked_add(
        b.tax_amount,
    ) is Some && a.tax_paid_abroad.checked_add(b.tax_paid_abroad) is Some
        && a.tax_to_pay.checked_add(b.tax_to_pay) is Some {
        Some(
            IncomeLineView {
                value: a.value.checked_add(b.value).unwrap(),
                health_insurance: a.health_insurance.checked_add(b.health_insurance).unwrap(),
                tax_base: a.tax_base.checked_add(b.tax_base).unwrap(),
                tax_amount: a.tax_amount.checked_add(b.tax_amount).unwrap(),
                tax_paid_abroad: a.tax_paid_abroad.checked_add(b.tax_paid_abroad).unwrap(),
                tax_to_pay: a.tax_to_pay.checked_add(b.tax_to_pay).unwrap(),
            },
        )
    } else {
        None
    }
}

/// The sum of the first `n` income lines: the first line, and each further
/// one added to it in turn. `None` where there is no line or a sum overflows.
pub open spec fn lines_total(lines: Seq<IncomeLineView>, n: nat) -> Option<IncomeLineView>
    decreases n,
{
    if n == 0 {
        None
    } else if n == 1 {
        Some(lines[0])
    } else {
        match lines_total(lines, (n - 1) as nat) {
            Some(total) => line_sum(total, lines[n - 1]),
            None => None,
        }
    }
}

impl IncomeLine {
    /// The income line of a gross income and the tax paid abroad on it.
    pub fn compute(base_value: Amount, tax_paid_abroad: Amount) -> (r: Option<IncomeLine>)
        ensures
            option_view(r) == income_line_value(base_value@, tax_paid_abroad@),
    {
        let health_insurance = match health_insurance_part(base_value) {
            Some(a) => a,
            None => {
                return None;
            },
        };
        let tax_base = match tax_base(base_value) {
            Some(a) => a,
            None => {
                return None;
            },
        };
        let tax_amount = match tax_amount(base_value) {
            Some(a) => a,
            None => {
                return None;
            },
        };
        let tax_to_pay = match tax_amount.checked_sub(tax_paid_abroad) {
            Some(a) => a,
            None => {
                return None;
            },
        };
        Some(
            IncomeLine {
                value: base_value,
                health_insurance,
                tax_base,
                tax_amount,
                tax_paid_abroad,
                tax_to_pay,
            },
        )
    }

    /// The sum of two income lines, amount by amount.
    pub fn checked_add(self, rhs: IncomeLine) -> (r: Option<IncomeLine>)
        ensures
            option_view(r) == line_sum(self@, rhs@),
    {
        let value = match self.value.checked_add(rhs.value) {
            Some(a) => a,
            None => {
                return None;
            },
        };
        let health_insurance = match self.health_insurance.checked_add(rhs.health_insurance) {
            Some(a) => a,
            None => {
                return None;
            },
        };
        let tax_base = match self.tax_base.checked_add(rhs.tax_base) {
            Some(a) => a,
            None => {
                return None;
            },
        };
        let tax_amount = match self.tax_amount.checked_add(rhs.tax_amount) {
            Some(a) => a,
            None => {
                return None;
            },
        };
        let tax_paid_abroad = match self.tax_paid_abroad.checked_add(rhs.tax_paid_abroad) {
            Some(a) => a,
            None => {
                return None;
            },
        };
        let tax_to_pay = match self.tax_to_pay.checked_add(rhs.tax_to_pay) {
            Some(a) => a,
            None => {
                return None;
            },
        };
        Some(
            IncomeLine {
                value,
                health_insurance,
                tax_base,
                tax_amount,
                tax_paid_abroad,
                tax_to_pay,
            },
        )
    }
}

/// The ledger entry of an income line: the income, and the tax that is left
/// to pay on it.
pub open spec fn ledger_entry_of(line: IncomeLineView) -> AmsInfoView {
    AmsInfoView { income_total: line.value, tax_paid: line.tax_to_pay }
}

/// The views of the income lines of a list.
pub open spec fn lines_view(lines: Seq<IncomeLine>) -> Seq<IncomeLineView> {
    Seq::new(lines.len(), |i: int| lines[i]@)
}

/// The page number and the page count: the form has one page.
pub open spec fn page_writes() -> Seq<(int, Seq<char>)> {
    seq![
        (field_offset(FormField::PageNumber), "1"@),
        (field_offset(FormField::PageCount), "1"@),
    ]
}

/// The six fields of the income line `line`.
pub open spec fn line_writes(line: int, amounts: IncomeLineView) -> Seq<(int, Seq<char>)> {
    seq![
        (repeating_offset(line, RepeatingFormField::IncomeValue), money_text(amounts.value)),
        (
            repeating_offset(line, RepeatingFormField::HealthInsurance),
            money_text(amounts.health_insurance),
        ),
        (repeating_offset(line, RepeatingFormField::TaxBase), money_text(amounts.tax_base)),
        (repeating_offset(line, RepeatingFormField::TaxAmount), money_text(amounts.tax_amount)),
        (
            repeating_offset(line, RepeatingFormField::TaxPaidAbroad),
            money_text(amounts.tax_paid_abroad),
        ),
        (repeating_offset(line, RepeatingFormField::TaxToPay), money_text(amounts.tax_to_pay)),
    ]
}

/// The fields of the first `n` income lines, line after line.
pub open spec fn lines_writes(lines: Seq<IncomeLineView>, n: nat) -> Seq<(int, Seq<char>)>
    decreases n,
{
    if n == 0 {
        Seq::empty()
    } else {
        lines_writes(lines, (n - 1) as nat) + line_writes(n - 1, lines[n - 1])
    }
}

/// The five totals. The income itself has no total field.
pub open spec fn total_writes(total: IncomeLineView) -> Seq<(int, Seq<char>)> {
    seq![
        (field_offset(FormField::HealthInsuranceTotal), money_text(total.health_insurance)),
        (field_offset(FormField::TaxBaseTotal), money_text(total.tax_base)),
        (field_offset(FormField::TaxAmountTotal), money_text(total.tax_amount)),
        (field_offset(FormField::TaxPairAbroadTotal), money_text(total.tax_paid_abroad)),
        (field_offset(FormField::TaxToPayTotal), money_text(total.tax_to_pay)),
    ]
}

/// Everything that the income lines bring into the form, in the order in
/// which it is written: the page fields, the lines, the totals.
pub open spec fn income_writes(lines: Seq<IncomeLineView>, total: IncomeLineView) -> Seq<
    (int, Seq<char>),
> {
    page_writes() + lines_writes(lines, lines.len()) + total_writes(total)
}

/// The name that stands in for the one that the template cannot give: the
/// name of the country field is not plain ASCII.
pub open spec fn country_patch() -> Option<(int, Seq<char>)> {
    Some((field_offset(FormField::CompanyCountry), "8 Dr&#382;ava"@))
}

/// The name under which the value at a position of this form is handed out.
pub open spec fn ams_field_names(template: Seq<TemplateFieldView>) -> spec_fn(int) -> Option<
    Seq<char>,
> {
    |k: int| resolved_name(template, country_patch(), k)
}

fn money_write(index: usize, amount: Amount) -> (w: FieldWrite)
    ensures
        w@ == (index as int, money_text(amount@)),
{
    FieldWrite { index, value: format_money_value(amount) }
}

fn text_write(index: usize, text: &str) -> (w: FieldWrite)
    ensures
        w@ == (index as int, text@),
{
    FieldWrite { index, value: String::from_str(text) }
}

fn income_line_writes(lines: &Vec<IncomeLine>, total: IncomeLine) -> (writes: Vec<FieldWrite>)
    requires
        lines@.len() <= REPEATED_LINES,
    ensures
        writes_view(writes@) == income_writes(lines_view(lines@), total@),
{
    let ghost all = lines_view(lines@);
    let mut writes: Vec<FieldWrite> = Vec::new();
    writes.push(text_write(FormField::PageNumber.index(), "1"));
    writes.push(text_write(FormField::PageCount.index(), "1"));
    assert(writes_view(writes@) =~= page_writes());
    let n: usize = lines.len();
    let mut i: usize = 0;
    while i < n
        invariant
            i <= n,
            n == lines@.len(),
            n <= REPEATED_LINES,
            all == lines_view(lines@),
            writes_view(writes@) == page_writes() + lines_writes(all, i as nat),
        decreases n - i,
    {
        let ghost before = writes_view(writes@);
        let line = lines[i];
        writes.push(money_write(row_index(i, RepeatingFormField::IncomeValue), line.value));
        writes.push(
            money_write(row_index(i, RepeatingFormField::HealthInsurance), line.health_insurance),
        );
        writes.push(money_write(row_index(i, RepeatingFormField::TaxBase), line.tax_base));
        writes.push(money_write(row_index(i, RepeatingFormField::TaxAmount), line.tax_amount));
        writes.push(
            money_write(row_index(i, RepeatingFormField::TaxPaidAbroad), line.tax_paid_abroad),
        );
        writes.push(money_write(row_index(i, RepeatingFormField::TaxToPay), line.tax_to_pay));
        assert(all[i as int] == line@);
        assert(writes_view(writes@) =~= before + line_writes(i as int, line@));
        assert(before + line_writes(i as int, line@) =~= page_writes() + lines_writes(
            all,
            (i + 1) as nat,
        ));
        i += 1;
    }
    let ghost before = writes_view(writes@);
    writes.push(money_write(FormField::HealthInsuranceTotal.index(), total.health_insurance));
    writes.push(money_write(FormField::TaxBaseTotal.index(), total.tax_base));
    writes.push(money_write(FormField::TaxAmountTotal.index(), total.tax_amount));
    writes.push(money_write(FormField::TaxPairAbroadTotal.index(), total.tax_paid_abroad));
    writes.push(money_write(FormField::TaxToPayTotal.index(), total.tax_to_pay));
    assert(writes_view(writes@) =~= before + total_writes(total@));
    writes
}

fn total_of(lines: &Vec<IncomeLine>) -> (r: Option<IncomeLine>)
    ensures
        option_view(r) == lines_total(lines_view(lines@), lines@.len()),
{
    let n: usize = lines.len();
    if n == 0 {
        return None;
    }
    let ghost all = lines_view(lines@);
    let mut total = lines[0];
    let mut i: usize = 1;
    while i < n
        invariant
            1 <= i <= n,
            n == lines@.len(),
            all == lines_view(lines@),
            lines_total(all, i as nat) == Some(total@),
        decreases n - i,
    {
        match total.checked_add(lines[i]) {
            Some(sum) => {
                total = sum;
            },
            None => {
                proof {
                    lemma_lines_total_stays_none(all, (i + 1) as nat, n as nat);
                }
                return None;
            },
        }
        i += 1;
    }
    Some(total)
}

/// A total that has overflowed stays overflowed, whatever follows.
pub proof fn lemma_lines_total_stays_none(lines: Seq<IncomeLineView>, m: nat, n: nat)
    requires
        1 <= m <= n,
        lines_total(lines, m) is None,
    ensures
        lines_total(lines, n) is None,
    decreases n,
{
    if m < n {
        lemma_lines_total_stays_none(lines, m, (n - 1) as nat);
    }
}

/// A session on the monthly payment form, as the contracts see it.
pub struct AmsSession {
    /// The template, with the texts set so far.
    pub template: Seq<TemplateFieldView>,
    /// The values written so far, each under its position.
    pub written: Map<int, Seq<char>>,
    /// The income lines added so far.
    pub lines: Seq<IncomeLineView>,
}

impl AmsSession {
    /// What writing a list of values does to the template and to the
    /// written values.
    pub open spec fn recorded(self, writes: Seq<(int, Seq<char>)>) -> Recorded {
        record_all(self.template, self.written, writes)
    }

    /// The session after a list of values was written.
    pub open spec fn after_writes(self, writes: Seq<(int, Seq<char>)>) -> AmsSession {
        AmsSession {
            template: self.recorded(writes).template,
            written: self.recorded(writes).fields,
            lines: self.lines,
        }
    }

    /// Whether a further income line can be added: the form has room, and
    /// the amounts of the line do not overflow.
    pub open spec fn takes_income(self, gross: DecimalValue, paid_abroad: DecimalValue) -> bool {
        self.lines.len() < REPEATED_LINES && income_line_value(gross, paid_abroad) is Some
    }

    /// The session after an income was added, where it can be.
    pub open spec fn with_income(self, gross: DecimalValue, paid_abroad: DecimalValue) -> AmsSession {
        if self.takes_income(gross, paid_abroad) {
            AmsSession {
                template: self.template,
                written: self.written,
                lines: self.lines.push(income_line_value(gross, paid_abroad).unwrap()),
            }
        } else {
            self
        }
    }

    /// What adding an income returns: the ledger entry of the new line, or
    /// why there is none. A full form is reported before an overflow.
    pub open spec fn income_result(self, gross: DecimalValue, paid_abroad: DecimalValue) -> Result<
        AmsInfoView,
        ErrorView,
    > {
        if self.lines.len() >= REPEATED_LINES {
            Err(ErrorView::RowLimitExceeded)
        } else {
            match income_line_value(gross, paid_abroad) {
                Some(line) => Ok(ledger_entry_of(line)),
                None => Err(ErrorView::AmountOverflow),
            }
        }
    }

    /// The sum of all income lines.
    pub open spec fn total(self) -> Option<IncomeLineView> {
        lines_total(self.lines, self.lines.len())
    }

    /// The session after the income lines were written into it. Without a
    /// total nothing is written.
    pub open spec fn completed(self) -> AmsSession {
        match self.total() {
            Some(total) => self.after_writes(income_writes(self.lines, total)),
            None => self,
        }
    }

    /// What writing the income lines returns.
    pub open spec fn completion_result(self) -> Result<(), ErrorView> {
        if self.lines.len() == 0 {
            Err(ErrorView::NoIncomeRecorded)
        } else {
            match self.total() {
                Some(total) => self.recorded(income_writes(self.lines, total)).result(),
                None => Err(ErrorView::AmountOverflow),
            }
        }
    }

    /// The written values by field name, in the order of their positions.
    pub open spec fn dictionary(self) -> Seq<(Seq<char>, Seq<char>)> {
        resolved_entries(self.written, ams_field_names(self.template), FIELD_COUNT as nat)
    }

    /// What completing the form returns: the dictionary of the completed
    /// session, or why the form could not be completed.
    pub open spec fn to_dict_result(self) -> Result<Seq<(Seq<char>, Seq<char>)>, ErrorView> {
        match self.completion_result() {
            Ok(_) => Ok(self.completed().dictionary()),
            Err(e) => Err(e),
        }
    }

    /// What reading the text of a field returns.
    pub open spec fn text_result(self, index: int) -> Result<Seq<char>, ErrorView> {
        if index >= self.template.len() {
            Err(ErrorView::Pdf(PdfErrorKind::Value(ValueError::NotFound)))
        } else {
            match self.template[index].text {
                Some(text) => Ok(text),
                None => Err(ErrorView::UnexpectedCondition("Unsupported field type!"@)),
            }
        }
    }

    /// What reading the number in a field returns.
    pub open spec fn number_result(self, index: int) -> Result<DecimalValue, ErrorView> {
        match self.text_result(index) {
            Ok(text) => match decimal_parsed(text) {
                Ok(value) => Ok(value),
                Err(message) => Err(ErrorView::UnexpectedCondition(message)),
            },
            Err(e) => Err(e),
        }
    }

    /// Whether every income line is what its income and the tax paid abroad
    /// on it come to, and the form has room for all of them.
    pub open spec fn consistent(self) -> bool {
        &&& self.lines.len() <= REPEATED_LINES
        &&& forall|i: int|
            0 <= i < self.lines.len() ==> income_line_value(
                (#[trigger] self.lines[i]).value,
                self.lines[i].tax_paid_abroad,
            ) == Some(self.lines[i])
    }
}

/// A session that fills the monthly payment form.
pub struct AmsForm {
    pdf_form: FormTemplate,
    fields: FormFieldMap,
    income_lines: Vec<IncomeLine>,
}

impl View for AmsForm {
    type V = AmsSession;

    closed spec fn view(&self) -> AmsSession {
        AmsSession {
            template: self.pdf_form@,
            written: self.fields@,
            lines: lines_view(self.income_lines@),
        }
    }
}

impl AmsForm {
    /// The form has room for its income lines, and each line is what its
    /// income and the tax paid abroad come to.
    #[verifier::type_invariant]
    pub open spec fn well_formed(self) -> bool {
        self@.consistent()
    }

    /// The number of income lines added so far.
    pub fn income_line_count(&self) -> (n: usize)
        ensures
            n == self@.lines.len(),
            n <= REPEATED_LINES,
    {
        proof {
            use_type_invariant(self);
        }
        self.income_lines.len()
    }

    /// The income line at a position, if there is one.
    pub fn income_line(&self, i: usize) -> (r: Option<IncomeLine>)
        ensures
            i < self@.lines.len() ==> option_view(r) == Some(self@.lines[i as int]),
            i >= self@.lines.len() ==> r is None,
    {
        if i < self.income_lines.len() {
            Some(self.income_lines[i])
        } else {
            None
        }
    }

    /// The value written at a position, if any.
    pub fn field_value(&self, index: usize) -> (r: Option<&String>)
        ensures
            self@.written.contains_key(index as int) ==> option_view(r) == Some(
                self@.written[index as int],
            ),
            !self@.written.contains_key(index as int) ==> r is None,
    {
        self.fields.get(index)
    }

    /// Writes a list of values, in order, up to the first that the template
    /// refuses. Each value is kept among the written values before the
    /// template is asked.
    pub fn fill_fields(&mut self, writes: Vec<FieldWrite>) -> (r: Result<(), Error>)
        ensures
            final(self)@ == old(self)@.after_writes(writes_view(writes@)),
            result_view(r) == old(self)@.recorded(writes_view(writes@)).result(),
    {
        proof {
            use_type_invariant(&*self);
        }
        let mut fields = FormFieldMap::new();
        std::mem::swap(&mut fields, &mut self.fields);
        let mut pdf_form = FormTemplate { fields: Vec::new() };
        std::mem::swap(&mut pdf_form, &mut self.pdf_form);
        let r = record_fields(&mut pdf_form, &mut fields, writes);
        self.fields = fields;
        self.pdf_form = pdf_form;
        r
    }

    /// Writes a value into a field that occurs once. The value is kept among
    /// the written values in any case; the result says whether the template
    /// took it.
    pub fn fill_main_field(&mut self, field: FormField, value: String) -> (r: Result<(), Error>)
        ensures
            final(self)@ == old(self)@.after_writes(seq![(field_offset(field), value@)]),
            result_view(r) == old(self)@.recorded(seq![(field_offset(field), value@)]).result(),
    {
        let mut writes: Vec<FieldWrite> = Vec::new();
        writes.push(FieldWrite { index: field.index(), value });
        assert(writes_view(writes@) =~= seq![(field_offset(field), value@)]);
        self.fill_fields(writes)
    }

    /// Writes a value into a field of an income line. A line that the form
    /// has no room for is refused, and nothing is written.
    pub fn fill_repeating_field(
        &mut self,
        line: u32,
        field: RepeatingFormField,
        value: String,
    ) -> (r: Result<(), Error>)
        ensures
            line >= REPEATED_LINES ==> final(self)@ == old(self)@ && result_view(r) == Err::<
                (),
                ErrorView,
            >(ErrorView::RowLimitExceeded),
            line < REPEATED_LINES ==> final(self)@ == old(self)@.after_writes(
                seq![(repeating_offset(line as int, field), value@)],
            ) && result_view(r) == old(self)@.recorded(
                seq![(repeating_offset(line as int, field), value@)],
            ).result(),
    {
        match repeating_field_index(line, field) {
            Ok(index) => {
                let mut writes: Vec<FieldWrite> = Vec::new();
                writes.push(FieldWrite { index, value });
                assert(writes_view(writes@) =~= seq![(repeating_offset(line as int, field), value@)]);
                self.fill_fields(writes)
            },
            Err(e) => Err(e),
        }
    }

    /// Adds an income line for a gross income and the tax paid abroad on it,
    /// and returns what goes into the ledger for it: the income and the tax
    /// left to pay. A sixth line is refused; so is an income whose amounts
    /// overflow. The session is then left as it was.
    pub fn add_income(&mut self, base_value: Amount, tax_paid_abroad: Amount) -> (r: Result<
        AmsInfo,
        Error,
    >)
        ensures
            final(self)@ == old(self)@.with_income(base_value@, tax_paid_abroad@),
            result_view(r) == old(self)@.income_result(base_value@, tax_paid_abroad@),
    {
        proof {
            use_type_invariant(&*self);
        }
        if self.income_lines.len() >= 5 {
            return Err(Error::RowLimitExceeded);
        }
        let income_line = match IncomeLine::compute(base_value, tax_paid_abroad) {
            Some(line) => line,
            None => {
                return Err(Error::AmountOverflow);
            },
        };
        let mut income_lines: Vec<IncomeLine> = Vec::new();
        std::mem::swap(&mut income_lines, &mut self.income_lines);
        income_lines.push(income_line);
        assert(lines_view(income_lines@) =~= old(self)@.lines.push(income_line@));
        self.income_lines = income_lines;
        Ok(AmsInfo { income_total: base_value, tax_paid: income_line.tax_to_pay })
    }

    /// Writes what the income lines bring into the form: the page fields,
    /// each line into its row, and the totals. Without any income line there
    /// are no totals, and nothing is written; neither where a total
    /// overflows. Otherwise the values are written in order, up to the first
    /// that the template refuses.
    pub fn fill_income_lines(&mut self) -> (r: Result<(), Error>)
        ensures
            final(self)@ == old(self)@.completed(),
            result_view(r) == old(self)@.completion_result(),
    {
        proof {
            use_type_invariant(&*self);
        }
        if self.income_lines.len() == 0 {
            return Err(Error::NoIncomeRecorded);
        }
        let total = match total_of(&self.income_lines) {
            Some(total) => total,
            None => {
                return Err(Error::AmountOverflow);
            },
        };
        let writes = income_line_writes(&self.income_lines, total);
        self.fill_fields(writes)
    }

    /// Completes the form and hands out its values by field name. See
    /// `fill_income_lines` for what is written first and for the errors. The
    /// values are then taken in the order of their positions; each goes
    /// under the name that the template declares for its field. A value
    /// whose field has no readable name is dropped, except that of the
    /// country field, which goes under its known name. Calling this again
    /// writes the same values again and adds nothing up.
    pub fn to_dict(&mut self) -> (r: Result<FieldDict, Error>)
        ensures
            final(self)@ == old(self)@.completed(),
            result_view(r) == old(self)@.to_dict_result(),
    {
        match self.fill_income_lines() {
            Ok(()) => {},
            Err(e) => {
                return Err(e);
            },
        }
        let patch = NamePatch {
            index: FormField::CompanyCountry.index(),
            name: String::from_str("8 Dr&#382;ava"),
        };
        Ok(resolve_fields(&self.pdf_form, &self.fields, Some(patch), FIELD_COUNT))
    }

    /// The text that the template holds in a field. A field that holds no
    /// text is an unexpected condition; a position that the template lacks
    /// is reported as not found.
    pub fn get_text_field_value(&self, field: FormField) -> (r: Result<String, Error>)
        ensures
            result_view(r) == self@.text_result(field_offset(field)),
    {
        let index: usize = field.index();
        if index >= self.pdf_form.len() {
            return Err(Error::Pdf(PdfErrorKind::Value(ValueError::NotFound)));
        }
        match self.pdf_form.get_text(index) {
            Some(text) => Ok(text.clone()),
            None => Err(Error::UnexpectedCondition(String::from_str("Unsupported field type!"))),
        }
    }

    /// The number that the template holds in a field, read from its text.
    /// A text that is no number is an unexpected condition.
    pub fn get_number_field_value(&self, field: FormField) -> (r: Result<Amount, Error>)
        ensures
            result_view(r) == self@.number_result(field_offset(field)),
    {
        let text = match self.get_text_field_value(field) {
            Ok(text) => text,
            Err(e) => {
                return Err(e);
            },
        };
        match Amount::parse(text.as_str()) {
            Ok(amount) => Ok(amount),
            Err(message) => Err(Error::UnexpectedCondition(message)),
        }
    }
}

/// A form that holds five income lines refuses every further income, whatever
/// the income is, and stays as it is.
pub proof fn lemma_full_form_refuses_income(
    session: AmsSession,
    gross: DecimalValue,
    paid_abroad: DecimalValue,
)
    requires
        session.lines.len() >= REPEATED_LINES,
    ensures
        session.income_result(gross, paid_abroad) == Err::<AmsInfoView, ErrorView>(
            ErrorView::RowLimitExceeded,
        ),
        session.with_income(gross, paid_abroad) == session,
{
}

/// An income that is taken adds one line, and the form never holds more
/// than five.
pub proof fn lemma_income_adds_one_line(
    session: AmsSession,
    gross: DecimalValue,
    paid_abroad: DecimalValue,
)
    requires
        session.consistent(),
    ensures
        session.with_income(gross, paid_abroad).consistent(),
        session.income_result(gross, paid_abroad) is Ok ==> session.with_income(
            gross,
            paid_abroad,
        ).lines.len() == session.lines.len() + 1,
        session.income_result(gross, paid_abroad) is Err ==> session.with_income(
            gross,
            paid_abroad,
        ) == session,
{
}

/// A form without any income line cannot be completed, whatever else was
/// written into it, and stays as it is.
pub proof fn lemma_no_income_no_totals(session: AmsSession)
    requires
        session.lines.len() == 0,
    ensures
        session.to_dict_result() == Err::<Seq<(Seq<char>, Seq<char>)>, ErrorView>(
            ErrorView::NoIncomeRecorded,
        ),
        session.completion_result() == Err::<(), ErrorView>(ErrorView::NoIncomeRecorded),
        session.completed() == session,
{
}

/// Completing a form twice leaves what completing it once leaves, wherever
/// the template takes every value: the totals are written again, not added
/// to.
pub proof fn lemma_completing_again_changes_nothing(session: AmsSession)
    requires
        session.completion_result() is Ok,
    ensures
        session.completed().completion_result() is Ok,
        session.completed().completed() == session.completed(),
{
    let total = session.total().unwrap();
    let writes = income_writes(session.lines, total);
    lemma_recording_again(session.template, session.written, writes);
}

/// Opens a session on a template: nothing is written yet, and there is no
/// income line.
pub fn load_ams_form(template: FormTemplate) -> (form: AmsForm)
    ensures
        form@ == (AmsSession {
            template: template@,
            written: Map::<int, Seq<char>>::empty(),
            lines: Seq::<IncomeLineView>::empty(),
        }),
{
    let form = AmsForm { pdf_form: template, fields: FormFieldMap::new(), income_lines: Vec::new() };
    assert(form@.lines =~= Seq::<IncomeLineView>::empty());
    form
}

} // verus!

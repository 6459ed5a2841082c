//! Taking filled monthly forms into the ledger.

use crate::db::{AmsInfo, AmsInfoView, LedgerEntry, TaxDb};
use crate::dict::assoc_insert;
use crate::error::{Error, ErrorView};
use crate::forms::amsform::{field_offset, AmsForm, AmsSession, FormField};
use crate::views::result_view;
use vstd::prelude::*;
use vstd::string::StringExecFns;

verus! {

/// What the command is asked for.
pub struct LoadArgs {
    /// The files of the filled forms.
    pub file: Vec<String>,
}

/// The date under which a filled form is filed: the year, the month and the
/// day of its payment date, joined by dashes.
pub open spec fn payment_date(year: Seq<char>, month: Seq<char>, day: Seq<char>) -> Seq<char> {
    year + seq!['-'] + month + seq!['-'] + day
}

/// What a filled form gives to the ledger: its payment date, and under it
/// the tax base and the health insurance together as the income, and the tax
/// to pay as the tax paid. The fields are read in this order: the tax to
/// pay, the tax base, the health insurance, then the year, the month and
/// the day; the first that cannot be read decides the error.
pub open spec fn form_entry(form: AmsSession) -> Result<(Seq<char>, AmsInfoView), ErrorView> {
    match form.number_result(field_offset(FormField::TaxToPayTotal)) {
        Err(e) => Err(e),
        Ok(total_paid) => match form.number_result(field_offset(FormField::TaxBaseTotal)) {
            Err(e) => Err(e),
            Ok(tax_base) => match form.number_result(field_offset(FormField::HealthInsuranceTotal)) {
                Err(e) => Err(e),
                Ok(insurance) => match tax_base.checked_add(insurance) {
                    None => Err(ErrorView::AmountOverflow),
                    Some(income) => match form.text_result(
                        field_offset(FormField::PaymentDateYear),
                    ) {
                        Err(e) => Err(e),
                        Ok(year) => match form.text_result(
                            field_offset(FormField::PaymentDateMonth),
                        ) {
                            Err(e) => Err(e),
                            Ok(month) => match form.text_result(
                                field_offset(FormField::PaymentDateDay),
                            ) {
                                Err(e) => Err(e),
                                Ok(day) => Ok(
                                    (
                                        payment_date(year, month, day),
                                        AmsInfoView { income_total: income, tax_paid: total_paid },
                                    ),
                                ),
                            },
                        },
                    },
                },
            },
        },
    }
}

/// The ledger after the first `n` forms were taken into it, or the error of
/// the first form that gives none.
pub open spec fn loaded(
    ledger: Seq<(Seq<char>, AmsInfoView)>,
    forms: Seq<AmsSession>,
    n: nat,
) -> Result<Seq<(Seq<char>, AmsInfoView)>, ErrorView>
    decreases n,
{
    if n == 0 {
        Ok(ledger)
    } else {
        match loaded(ledger, forms, (n - 1) as nat) {
            Ok(before) => match form_entry(forms[n - 1]) {
                Ok(entry) => Ok(assoc_insert(before, entry.0, entry.1)),
                Err(e) => Err(e),
            },
            Err(e) => Err(e),
        }
    }
}

/// The sessions of a list of forms.
pub open spec fn sessions(forms: Seq<AmsForm>) -> Seq<AmsSession> {
    Seq::new(forms.len(), |i: int| forms[i]@)
}

/// Reads from a filled form what it gives to the ledger.
pub fn read_entry(form: &AmsForm) -> (r: Result<LedgerEntry, Error>)
    ensures
        match form_entry(form@) {
            Ok(entry) => r is Ok && (r.unwrap().date@, r.unwrap().info@) == entry,
            Err(e) => result_view_of_entry(r) == Err::<(), ErrorView>(e),
        },
{
    let total_paid = match form.get_number_field_value(FormField::TaxToPayTotal) {
        Ok(a) => a,
        Err(e) => {
            return Err(e);
        },
    };
    let tax_base = match form.get_number_field_value(FormField::TaxBaseTotal) {
        Ok(a) => a,
        Err(e) => {
            return Err(e);
        },
    };
    let insurance = match form.get_number_field_value(FormField::HealthInsuranceTotal) {
        Ok(a) => a,
        Err(e) => {
            return Err(e);
        },
    };
    let income = match tax_base.checked_add(insurance) {
        Some(a) => a,
        None => {
            return Err(Error::AmountOverflow);
        },
    };
    let year = match form.get_text_field_value(FormField::PaymentDateYear) {
        Ok(t) => t,
        Err(e) => {
            return Err(e);
        },
    };
    let month = match form.get_text_field_value(FormField::PaymentDateMonth) {
        Ok(t) => t,
        Err(e) => {
            return Err(e);
        },
    };
    let day = match form.get_text_field_value(FormField::PaymentDateDay) {
        Ok(t) => t,
        Err(e) => {
            return Err(e);
        },
    };
    let mut invoice_date = year;
    invoice_date.append("-");
    invoice_date.append(month.as_str());
    invoice_date.append("-");
    invoice_date.append(day.as_str());
    proof {
        reveal_strlit("-");
        assert(invoice_date@ =~= payment_date(year@, month@, day@));
    }
    Ok(LedgerEntry { date: invoice_date, info: AmsInfo { income_total: income, tax_paid: total_paid } })
}

/// The error of a result, with nothing for its value.
pub open spec fn result_view_of_entry(r: Result<LedgerEntry, Error>) -> Result<(), ErrorView> {
    match r {
        Ok(_) => Ok(()),
        Err(e) => Err(e@),
    }
}

/// Takes filled forms into the ledger, one after the other. Each is filed
/// under its payment date and replaces what was filed there. Where a form
/// cannot be read the ledger is left as it was.
pub fn handle_command(tax_db: &mut TaxDb, forms: &Vec<AmsForm>) -> (r: Result<(), Error>)
    ensures
        match loaded(old(tax_db)@, sessions(forms@), forms@.len()) {
            Ok(ledger) => r is Ok && final(tax_db)@ == ledger,
            Err(e) => result_view(r) == Err::<(), ErrorView>(e) && final(tax_db)@ == old(tax_db)@,
        },
{
    let ghost all = sessions(forms@);
    let mut entries: Vec<LedgerEntry> = Vec::new();
    let n: usize = forms.len();
    let mut i: usize = 0;
    while i < n
        invariant
            i <= n,
            n == forms@.len(),
            all == sessions(forms@),
            tax_db@ == old(tax_db)@,
            entries@.len() == i,
            forall|j: int|
                0 <= j < i ==> form_entry(all[j]) == Ok::<(Seq<char>, AmsInfoView), ErrorView>(
                    ((#[trigger] entries@[j]).date@, entries@[j].info@),
                ),
        decreases n - i,
    {
        assert(all[i as int] == forms@[i as int]@);
        match read_entry(&forms[i]) {
            Ok(entry) => {
                entries.push(entry);
            },
            Err(e) => {
                proof {
                    assert forall|j: int| 0 <= j < i implies (#[trigger] form_entry(
                        all[j],
                    )) is Ok by {
                        assert(entries@[j].date@ == entries@[j].date@);
                    }
                    lemma_loaded_fails_at(old(tax_db)@, all, i as nat, n as nat);
                }
                return Err(e);
            },
        }
        i += 1;
    }
    let mut k: usize = 0;
    while k < n
        invariant
            k <= n,
            n == forms@.len(),
            n == entries@.len(),
            all == sessions(forms@),
            forall|j: int|
                0 <= j < n ==> form_entry(all[j]) == Ok::<(Seq<char>, AmsInfoView), ErrorView>(
                    ((#[trigger] entries@[j]).date@, entries@[j].info@),
                ),
            loaded(old(tax_db)@, all, k as nat) == Ok::<Seq<(Seq<char>, AmsInfoView)>, ErrorView>(
                tax_db@,
            ),
        decreases n - k,
    {
        let date = entries[k].date.clone();
        let info = entries[k].info;
        assert(form_entry(all[k as int]) == Ok::<(Seq<char>, AmsInfoView), ErrorView>(
            (entries@[k as int].date@, entries@[k as int].info@),
        ));
        tax_db.add_ams_info(info, date);
        k += 1;
    }
    Ok(())
}

/// Where a form gives no entry, the forms up to any later one give its
/// error, if all forms before it gave an entry.
pub proof fn lemma_loaded_fails_at(
    ledger: Seq<(Seq<char>, AmsInfoView)>,
    forms: Seq<AmsSession>,
    i: nat,
    n: nat,
)
    requires
        i < n,
        forall|j: int| 0 <= j < i ==> (#[trigger] form_entry(forms[j])) is Ok,
        form_entry(forms[i as int]) is Err,
    ensures
        loaded(ledger, forms, n) is Err,
        loaded(ledger, forms, n)->Err_0 == form_entry(forms[i as int])->Err_0,
    decreases n,
{
    lemma_loaded_succeeds_to(ledger, forms, i);
    if n > i + 1 {
        lemma_loaded_fails_at(ledger, forms, i, (n - 1) as nat);
    }
}

/// Forms that all give an entry give a ledger.
pub proof fn lemma_loaded_succeeds_to(
    ledger: Seq<(Seq<char>, AmsInfoView)>,
    forms: Seq<AmsSession>,
    n: nat,
)
    requires
        forall|j: int| 0 <= j < n ==> (#[trigger] form_entry(forms[j])) is Ok,
    ensures
        loaded(ledger, forms, n) is Ok,
    decreases n,
{
    if n > 0 {
        lemma_loaded_succeeds_to(ledger, forms, (n - 1) as nat);
        assert(form_entry(forms[n - 1]) is Ok);
    }
}

} // verus!

use fbihtax::amount::Amount;
use fbihtax::db::AmsInfo;
use fbihtax::dict::FieldDict;
use fbihtax::error::{Error, PdfErrorKind, ValueError};
use fbihtax::forms::amsform::{
    load_ams_form, repeating_field_index, AmsForm, FormField, IncomeLine, RepeatingFormField,
    FIELD_COUNT, REPEATED_FIELDS_COUNT, REPEATED_LINES, REPEATING_FIELDS_START,
};
use fbihtax::forms::formutils::{FormTemplate, TemplateField};

fn dec(mantissa: i128, scale: u32) -> Amount {
    Amount::from_parts(mantissa, scale).unwrap()
}

// A template of text fields, the field at position `i` named `f<i>`.
fn template(count: usize) -> FormTemplate {
    let mut fields = Vec::new();
    for i in 0..count {
        fields.push(TemplateField { name: Some(format!("f{}", i)), text: Some(String::new()) });
    }
    FormTemplate { fields }
}

fn form() -> AmsForm {
    load_ams_form(template(49))
}

fn entries(dict: &FieldDict) -> Vec<(String, String)> {
    let mut all = Vec::new();
    for i in 0..dict.len() {
        let entry = dict.entry(i).unwrap();
        all.push((entry.key.clone(), entry.value.clone()));
    }
    all
}

fn pair(key: &str, value: &str) -> (String, String) {
    (key.to_string(), value.to_string())
}

#[test]
fn layout_constants() {
    assert_eq!(13, REPEATING_FIELDS_START);
    assert_eq!(5, REPEATED_LINES);
    assert_eq!(6, REPEATED_FIELDS_COUNT);
    assert_eq!(49, FIELD_COUNT);
}

#[test]
fn repeating_field_offsets() {
    assert_eq!(Ok(13), repeating_field_index(0, RepeatingFormField::IncomeValue));
    assert_eq!(Ok(18), repeating_field_index(0, RepeatingFormField::TaxToPay));
    assert_eq!(Ok(19), repeating_field_index(1, RepeatingFormField::IncomeValue));
    assert_eq!(Ok(14), repeating_field_index(0, RepeatingFormField::HealthInsurance));
    assert_eq!(Ok(15), repeating_field_index(0, RepeatingFormField::TaxBase));
    assert_eq!(Ok(16), repeating_field_index(0, RepeatingFormField::TaxAmount));
    assert_eq!(Ok(17), repeating_field_index(0, RepeatingFormField::TaxPaidAbroad));
    assert_eq!(Ok(37), repeating_field_index(4, RepeatingFormField::IncomeValue));
    assert_eq!(Ok(42), repeating_field_index(4, RepeatingFormField::TaxToPay));
}

#[test]
fn a_row_beyond_the_form_is_refused() {
    assert_eq!(
        Err(Error::RowLimitExceeded),
        repeating_field_index(5, RepeatingFormField::IncomeValue)
    );
    assert_eq!(
        Err(Error::RowLimitExceeded),
        repeating_field_index(6, RepeatingFormField::TaxToPay)
    );
    assert_eq!(
        Err(Error::RowLimitExceeded),
        repeating_field_index(u32::MAX, RepeatingFormField::TaxBase)
    );
}

#[test]
fn flat_field_offsets() {
    let expected = [
        (FormField::PageNumber, 0),
        (FormField::PageCount, 1),
        (FormField::UserName, 2),
        (FormField::UserJmbg, 3),
        (FormField::UserAddress, 4),
        (FormField::PaymentDateDay, 5),
        (FormField::PaymentDateMonth, 6),
        (FormField::PaymentDateYear, 7),
        (FormField::TaxPeriodMonth, 8),
        (FormField::TaxPeriodYearLast2Digits, 9),
        (FormField::CompanyName, 10),
        (FormField::CompanyAddress, 11),
        (FormField::CompanyCountry, 12),
        (FormField::HealthInsuranceTotal, 43),
        (FormField::TaxBaseTotal, 44),
        (FormField::TaxAmountTotal, 45),
        (FormField::TaxPairAbroadTotal, 46),
        (FormField::TaxToPayTotal, 47),
        (FormField::Date, 48),
    ];
    for (field, offset) in expected {
        assert_eq!(offset, field.index());
    }
    assert_eq!(0, RepeatingFormField::IncomeValue.base());
    assert_eq!(5, RepeatingFormField::TaxToPay.base());
}

#[test]
fn income_line_of_800() {
    let line = IncomeLine::compute(dec(800, 0), dec(0, 0)).unwrap();
    assert_eq!(dec(800, 0), line.value);
    assert_eq!(dec(3200, 2), line.health_insurance);
    assert_eq!(dec(76800, 2), line.tax_base);
    assert_eq!(dec(768000, 4), line.tax_amount);
    assert_eq!(dec(0, 0), line.tax_paid_abroad);
    assert_eq!(dec(768000, 4), line.tax_to_pay);
    let line = IncomeLine::compute(dec(800, 0), dec(2000, 2)).unwrap();
    assert_eq!(dec(568000, 4), line.tax_to_pay);
    let line = IncomeLine::compute(dec(800, 0), dec(100, 0)).unwrap();
    assert_eq!(dec(-232000, 4), line.tax_to_pay);
}

#[test]
fn income_lines_add_up_amount_by_amount() {
    let a = IncomeLine::compute(dec(800, 0), dec(10, 0)).unwrap();
    let b = IncomeLine::compute(dec(20050, 2), dec(0, 0)).unwrap();
    let sum = a.checked_add(b).unwrap();
    assert_eq!(dec(100050, 2), sum.value);
    assert_eq!(dec(400200, 4), sum.health_insurance);
    assert_eq!(dec(9604800, 4), sum.tax_base);
    assert_eq!(dec(96048000, 6), sum.tax_amount);
    assert_eq!(dec(10, 0), sum.tax_paid_abroad);
    assert_eq!(dec(86048000, 6), sum.tax_to_pay);
}

#[test]
fn add_income_returns_the_ledger_entry() {
    let mut form = form();
    let info = form.add_income(dec(800, 0), dec(0, 0)).unwrap();
    assert_eq!(AmsInfo { income_total: dec(800, 0), tax_paid: dec(768000, 4) }, info);
    let info = form.add_income(dec(100000, 2), dec(1000, 2)).unwrap();
    assert_eq!(AmsInfo { income_total: dec(100000, 2), tax_paid: dec(86000000, 6) }, info);
    assert_eq!(2, form.income_line_count());
    assert_eq!(dec(800, 0), form.income_line(0).unwrap().value);
    assert_eq!(dec(100000, 2), form.income_line(1).unwrap().value);
    assert!(form.income_line(2).is_none());
}

#[test]
fn a_sixth_income_is_refused() {
    let mut form = form();
    for i in 0..5 {
        assert!(form.add_income(dec(100 + i, 0), dec(0, 0)).is_ok());
    }
    assert_eq!(Err(Error::RowLimitExceeded), form.add_income(dec(600, 0), dec(0, 0)));
    assert_eq!(Err(Error::RowLimitExceeded), form.add_income(dec(700, 0), dec(0, 0)));
    assert_eq!(5, form.income_line_count());
    assert_eq!(dec(104, 0), form.income_line(4).unwrap().value);
    assert!(form.to_dict().is_ok());
}

#[test]
fn a_form_without_income_has_no_totals() {
    let mut empty = form();
    assert_eq!(Err(Error::NoIncomeRecorded), empty.fill_income_lines());
    assert!(matches!(empty.to_dict(), Err(Error::NoIncomeRecorded)));
    assert!(empty.field_value(0).is_none());
    assert!(empty.field_value(43).is_none());
    empty.fill_main_field(FormField::UserName, "Ana".to_string()).unwrap();
    assert!(matches!(empty.to_dict(), Err(Error::NoIncomeRecorded)));
}

#[test]
fn an_income_of_zero_is_an_income() {
    let mut form = form();
    form.add_income(dec(0, 0), dec(0, 0)).unwrap();
    let dict = form.to_dict().unwrap();
    assert_eq!(Some(&"0.00".to_string()), dict.get(&"f13".to_string()));
    assert_eq!(Some(&"0.00".to_string()), dict.get(&"f47".to_string()));
}

#[test]
fn to_dict_writes_lines_and_totals() {
    let mut form = form();
    form.fill_main_field(FormField::UserName, "Ana".to_string()).unwrap();
    form.add_income(dec(800, 0), dec(0, 0)).unwrap();
    form.add_income(dec(20050, 2), dec(500, 2)).unwrap();
    let dict = form.to_dict().unwrap();
    assert_eq!(
        vec![
            pair("f0", "1"),
            pair("f1", "1"),
            pair("f2", "Ana"),
            pair("f13", "800.00"),
            pair("f14", "32.00"),
            pair("f15", "768.00"),
            pair("f16", "76.80"),
            pair("f17", "0.00"),
            pair("f18", "76.80"),
            pair("f19", "200.50"),
            pair("f20", "8.02"),
            pair("f21", "192.48"),
            pair("f22", "19.25"),
            pair("f23", "5.00"),
            pair("f24", "14.25"),
            pair("f43", "40.02"),
            pair("f44", "960.48"),
            pair("f45", "96.05"),
            pair("f46", "5.00"),
            pair("f47", "91.05"),
        ],
        entries(&dict)
    );
    assert_eq!(Some(&"91.05".to_string()), form.field_value(47));
    assert_eq!(Ok("96.05".to_string()), form.get_text_field_value(FormField::TaxAmountTotal));
}

#[test]
fn to_dict_again_writes_the_same_and_adds_nothing_up() {
    let mut form = form();
    form.add_income(dec(800, 0), dec(0, 0)).unwrap();
    let first = entries(&form.to_dict().unwrap());
    let second = entries(&form.to_dict().unwrap());
    assert_eq!(first, second);
    form.add_income(dec(200, 0), dec(0, 0)).unwrap();
    let third = form.to_dict().unwrap();
    assert_eq!(Some(&"96.00".to_string()), third.get(&"f45".to_string()));
    assert_eq!(Some(&"200.00".to_string()), third.get(&"f19".to_string()));
    assert_eq!(Some(&"800.00".to_string()), third.get(&"f13".to_string()));
}

#[test]
fn a_value_without_a_field_name_is_dropped() {
    let mut template = template(49);
    template.fields[2].name = None;
    template.fields[10].name = Some(String::new());
    let mut form = load_ams_form(template);
    form.fill_main_field(FormField::UserName, "Ana".to_string()).unwrap();
    form.fill_main_field(FormField::UserJmbg, "123".to_string()).unwrap();
    form.fill_main_field(FormField::CompanyName, "Client".to_string()).unwrap();
    form.add_income(dec(800, 0), dec(0, 0)).unwrap();
    let dict = form.to_dict().unwrap();
    assert_eq!(Some(&"123".to_string()), dict.get(&"f3".to_string()));
    assert_eq!(None, dict.get(&"f2".to_string()));
    assert_eq!(None, dict.get(&"".to_string()));
    assert_eq!(None, dict.get(&"f10".to_string()));
    assert_eq!(Some(&"1".to_string()), dict.get(&"f1".to_string()));
    assert_eq!(Some(&"800.00".to_string()), dict.get(&"f13".to_string()));
    assert_eq!(14, dict.len());
}

#[test]
fn the_country_field_goes_under_its_known_name() {
    let mut template = template(49);
    template.fields[12].name = None;
    let mut form = load_ams_form(template);
    form.fill_main_field(FormField::CompanyCountry, "Austria".to_string()).unwrap();
    form.add_income(dec(800, 0), dec(0, 0)).unwrap();
    let dict = form.to_dict().unwrap();
    assert_eq!(Some(&"Austria".to_string()), dict.get(&"8 Dr&#382;ava".to_string()));
    assert_eq!(Some(&"1".to_string()), dict.get(&"f0".to_string()));
    assert_eq!(Some(&"76.80".to_string()), dict.get(&"f47".to_string()));
}

#[test]
fn a_country_field_with_a_name_keeps_it() {
    let mut form = form();
    form.fill_main_field(FormField::CompanyCountry, "Austria".to_string()).unwrap();
    form.add_income(dec(800, 0), dec(0, 0)).unwrap();
    let dict = form.to_dict().unwrap();
    assert_eq!(Some(&"Austria".to_string()), dict.get(&"f12".to_string()));
    assert_eq!(None, dict.get(&"8 Dr&#382;ava".to_string()));
}

#[test]
fn fields_of_one_name_leave_the_later_value() {
    let mut template = template(49);
    template.fields[3].name = Some("same".to_string());
    template.fields[4].name = Some("same".to_string());
    let mut form = load_ams_form(template);
    form.fill_main_field(FormField::UserAddress, "Street 1".to_string()).unwrap();
    form.fill_main_field(FormField::UserJmbg, "123".to_string()).unwrap();
    form.add_income(dec(800, 0), dec(0, 0)).unwrap();
    let dict = form.to_dict().unwrap();
    assert_eq!(Some(&"Street 1".to_string()), dict.get(&"same".to_string()));
    assert_eq!("same", dict.entry(2).unwrap().key);
}

#[test]
fn a_later_value_replaces_an_earlier_one() {
    let mut form = form();
    form.fill_main_field(FormField::UserName, "Ana".to_string()).unwrap();
    form.fill_main_field(FormField::UserName, "Iva".to_string()).unwrap();
    assert_eq!(Some(&"Iva".to_string()), form.field_value(2));
    assert_eq!(Ok("Iva".to_string()), form.get_text_field_value(FormField::UserName));
}

#[test]
fn a_template_that_lacks_a_field_refuses_it() {
    let mut form = load_ams_form(template(10));
    assert_eq!(Ok(()), form.fill_main_field(FormField::TaxPeriodYearLast2Digits, "23".to_string()));
    assert_eq!(
        Err(Error::Pdf(PdfErrorKind::Value(ValueError::NotFound))),
        form.fill_main_field(FormField::CompanyName, "Client".to_string())
    );
    assert_eq!(Some(&"Client".to_string()), form.field_value(10));
    assert_eq!(
        Err(Error::Pdf(PdfErrorKind::Value(ValueError::NotFound))),
        form.get_text_field_value(FormField::CompanyName)
    );
    form.add_income(dec(800, 0), dec(0, 0)).unwrap();
    assert!(matches!(
        form.to_dict(),
        Err(Error::Pdf(PdfErrorKind::Value(ValueError::NotFound)))
    ));
    assert_eq!(Some(&"1".to_string()), form.field_value(0));
    assert_eq!(Some(&"1".to_string()), form.field_value(1));
    assert_eq!(Some(&"800.00".to_string()), form.field_value(13));
    assert_eq!(None, form.field_value(14));
}

#[test]
fn a_field_that_is_no_text_field_refuses_a_text() {
    let mut template = template(49);
    template.fields[2].text = None;
    let mut form = load_ams_form(template);
    assert_eq!(
        Err(Error::Pdf(PdfErrorKind::Value(ValueError::TypeMismatch))),
        form.fill_main_field(FormField::UserName, "Ana".to_string())
    );
    assert_eq!(
        Err(Error::UnexpectedCondition("Unsupported field type!".to_string())),
        form.get_text_field_value(FormField::UserName)
    );
    assert_eq!(
        Err(Error::UnexpectedCondition("Unsupported field type!".to_string())),
        form.get_number_field_value(FormField::UserName)
    );
}

#[test]
fn fill_repeating_field_writes_into_the_row() {
    let mut form = form();
    assert_eq!(
        Ok(()),
        form.fill_repeating_field(1, RepeatingFormField::TaxBase, "12.00".to_string())
    );
    assert_eq!(Some(&"12.00".to_string()), form.field_value(21));
    assert_eq!(
        Err(Error::RowLimitExceeded),
        form.fill_repeating_field(5, RepeatingFormField::IncomeValue, "1.00".to_string())
    );
    assert_eq!(None, form.field_value(43));
    assert_eq!(None, form.field_value(13));
}

#[test]
fn numbers_are_read_from_the_template() {
    let mut template = template(49);
    template.fields[47].text = Some("76.80".to_string());
    template.fields[44].text = Some("seventy".to_string());
    let form = load_ams_form(template);
    assert_eq!(Ok(dec(7680, 2)), form.get_number_field_value(FormField::TaxToPayTotal));
    assert!(matches!(
        form.get_number_field_value(FormField::TaxBaseTotal),
        Err(Error::UnexpectedCondition(_))
    ));
    assert!(matches!(
        form.get_number_field_value(FormField::TaxAmountTotal),
        Err(Error::UnexpectedCondition(_))
    ));
    assert_eq!(Ok("seventy".to_string()), form.get_text_field_value(FormField::TaxBaseTotal));
}

#[test]
fn an_income_that_overflows_is_refused() {
    let max: i128 = 79_228_162_514_264_337_593_543_950_335;
    let mut form = form();
    assert_eq!(Err(Error::AmountOverflow), form.add_income(dec(max, 0), dec(-max, 0)));
    assert_eq!(0, form.income_line_count());
    assert!(form.add_income(dec(max, 0), dec(0, 0)).is_ok());
    assert!(form.add_income(dec(max, 0), dec(0, 0)).is_ok());
    assert_eq!(Err(Error::AmountOverflow), form.fill_income_lines());
    assert_eq!(None, form.field_value(0));
}

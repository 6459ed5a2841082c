use fbihtax::amount::Amount;
use fbihtax::config::UserConfig;
use fbihtax::dict::FieldDict;
use fbihtax::error::{Error, PdfErrorKind, UserErrorKind, ValueError};
use fbihtax::forms::formutils::{fill_field, FormFieldMap, FormTemplate, TemplateField};
use fbihtax::forms::gpdform::{load_gpd_form, Deductions, FormField, GpdForm, TaxInfo, FIELD_COUNT};

fn dec(mantissa: i128, scale: u32) -> Amount {
    Amount::from_parts(mantissa, scale).unwrap()
}

fn template(count: usize) -> FormTemplate {
    let mut fields = Vec::new();
    for i in 0..count {
        fields.push(TemplateField { name: Some(format!("g{}", i)), text: Some(String::new()) });
    }
    FormTemplate { fields }
}

fn form() -> GpdForm {
    load_gpd_form(template(44))
}

fn entries(dict: &FieldDict) -> Vec<(String, String)> {
    let mut all = Vec::new();
    for i in 0..dict.len() {
        let entry = dict.entry(i).unwrap();
        all.push((entry.key.clone(), entry.value.clone()));
    }
    all
}

fn pair(key: &str, value: &str) -> (String, String) {
    (key.to_string(), value.to_string())
}

fn user() -> UserConfig {
    UserConfig {
        name: "Ana Anic".to_string(),
        address: "Street 1".to_string(),
        jmbg: "0101990123456".to_string(),
        phone: Some("061 000 000".to_string()),
        email: None,
    }
}

#[test]
fn gpd_field_offsets() {
    assert_eq!(44, FIELD_COUNT);
    let expected = [
        (FormField::UserJmbg, 0),
        (FormField::UserName, 1),
        (FormField::TaxYearLast2, 2),
        (FormField::UserAddress, 3),
        (FormField::UserPhone, 4),
        (FormField::UserEmail, 5),
        (FormField::GipIncome, 6),
        (FormField::SprExpense, 7),
        (FormField::SprIncome, 8),
        (FormField::AgroExpense, 9),
        (FormField::AgroIncome, 10),
        (FormField::RentExpense, 11),
        (FormField::RentIncome, 12),
        (FormField::Rent2Expense, 13),
        (FormField::Rent2Income, 14),
        (FormField::AugExpense, 15),
        (FormField::AugIncome, 16),
        (FormField::PreviousExpense, 17),
        (FormField::ExpenseSum, 18),
        (FormField::IncomeSum, 19),
        (FormField::ExpenseTotal, 20),
        (FormField::IncomeTotal, 21),
        (FormField::PersonalDeduction, 22),
        (FormField::HealthDeduction, 23),
        (FormField::InterestDeduction, 24),
        (FormField::TotalDeduction, 25),
        (FormField::UserNameP2, 26),
        (FormField::UserJmbgP2, 27),
        (FormField::TaxYearLast2P2, 28),
        (FormField::ExpenseTotalP2, 29),
        (FormField::IncomeTotalP2, 30),
        (FormField::TotalDeductionP2, 31),
        (FormField::TaxBaseP2, 32),
        (FormField::TaxTotalP2, 33),
        (FormField::TaxDeductionF27P2, 34),
        (FormField::F29P2, 35),
        (FormField::TaxPaidP2, 36),
        (FormField::ExternalPaidTaxP2, 37),
        (FormField::RequestReturnP2, 38),
        (FormField::ReturnTotalP2, 39),
        (FormField::AccountNumberP2, 40),
        (FormField::DateP2, 41),
        (FormField::PeriodStart, 42),
        (FormField::PeriodEnd, 43),
    ];
    for (field, offset) in expected {
        assert_eq!(offset, field.index());
    }
}

#[test]
fn deductions_default_to_zero_and_add_up() {
    let none = Deductions::default();
    assert_eq!(dec(0, 0), none.personal);
    assert_eq!(dec(0, 0), none.health);
    assert_eq!(dec(0, 0), none.interest);
    assert_eq!(Some(dec(0, 0)), none.get_total());
    let some = Deductions { personal: dec(3600, 0), health: dec(12050, 2), interest: dec(5, 1) };
    assert_eq!(Some(dec(372100, 2)), some.get_total());
}

#[test]
fn tax_infos_add_up() {
    let a = TaxInfo { income: dec(1000, 0), tax_paid: dec(9650, 2) };
    let b = TaxInfo { income: dec(50050, 2), tax_paid: dec(1, 0) };
    assert_eq!(
        Some(TaxInfo { income: dec(150050, 2), tax_paid: dec(9750, 2) }),
        a.checked_add(b)
    );
}

#[test]
fn a_report_without_sources() {
    let mut form = form();
    let dict = form.to_dict().unwrap();
    assert_eq!(
        vec![
            pair("g18", "0.00"),
            pair("g19", "0.00"),
            pair("g20", "0.00"),
            pair("g21", "0.00"),
            pair("g22", "0.00"),
            pair("g23", "0.00"),
            pair("g24", "0.00"),
            pair("g25", "0.00"),
            pair("g29", "0.00"),
            pair("g30", "0.00"),
            pair("g31", "0.00"),
            pair("g32", "0.00"),
            pair("g33", "0.00"),
            pair("g36", "0.00"),
            pair("g39", "0.00"),
        ],
        entries(&dict)
    );
}

#[test]
fn a_report_with_both_sources_and_deductions() {
    let mut form = form();
    form.add_gip_info(dec(1000000, 2), dec(50000, 2));
    form.add_ams_info(dec(2500050, 2), dec(240005, 2));
    form.add_deductions(dec(3600, 0), dec(10000, 2), dec(555, 1));
    let dict = form.to_dict().unwrap();
    assert_eq!(
        vec![
            pair("g6", "10000.00"),
            pair("g16", "25000.50"),
            pair("g18", "0.00"),
            pair("g19", "35000.50"),
            pair("g20", "0.00"),
            pair("g21", "35000.50"),
            pair("g22", "3600.00"),
            pair("g23", "100.00"),
            pair("g24", "55.50"),
            pair("g25", "3755.50"),
            pair("g29", "0.00"),
            pair("g30", "35000.50"),
            pair("g31", "3755.50"),
            pair("g32", "31245.00"),
            pair("g33", "3124.50"),
            pair("g36", "2900.05"),
            pair("g39", "224.45"),
        ],
        entries(&dict)
    );
}

#[test]
fn a_report_with_tax_to_get_back() {
    let mut form = form();
    form.add_ams_info(dec(1000, 0), dec(500, 0));
    form.add_deductions(dec(3600, 0), dec(0, 0), dec(0, 0));
    let dict = form.to_dict().unwrap();
    assert_eq!(None, dict.get(&"g6".to_string()));
    assert_eq!(Some(&"1000.00".to_string()), dict.get(&"g16".to_string()));
    assert_eq!(Some(&"-2600.00".to_string()), dict.get(&"g32".to_string()));
    assert_eq!(Some(&"-260.00".to_string()), dict.get(&"g33".to_string()));
    assert_eq!(Some(&"500.00".to_string()), dict.get(&"g36".to_string()));
    assert_eq!(Some(&"-760.00".to_string()), dict.get(&"g39".to_string()));
}

#[test]
fn to_dict_again_gives_the_same_report() {
    let mut form = form();
    form.add_gip_info(dec(1000000, 2), dec(50000, 2));
    let first = entries(&form.to_dict().unwrap());
    let second = entries(&form.to_dict().unwrap());
    assert_eq!(first, second);
    form.add_gip_info(dec(5, 0), dec(1, 0));
    let third = form.to_dict().unwrap();
    assert_eq!(Some(&"5.00".to_string()), third.get(&"g6".to_string()));
    assert_eq!(Some(&"5.00".to_string()), third.get(&"g19".to_string()));
}

#[test]
fn fill_user_info_writes_both_pages() {
    let mut form = form();
    form.fill_user_info(&user()).unwrap();
    assert_eq!(Some(&"Ana Anic".to_string()), form.field_value(1));
    assert_eq!(Some(&"Ana Anic".to_string()), form.field_value(26));
    assert_eq!(Some(&"0101990123456".to_string()), form.field_value(0));
    assert_eq!(Some(&"0101990123456".to_string()), form.field_value(27));
    assert_eq!(Some(&"Street 1".to_string()), form.field_value(3));
    assert_eq!(Some(&"061 000 000".to_string()), form.field_value(4));
    assert_eq!(Some(&"".to_string()), form.field_value(5));
    assert_eq!(None, form.field_value(2));
}

#[test]
fn fill_year_info_writes_the_period() {
    let mut form = form();
    form.fill_year_info("2023".to_string()).unwrap();
    assert_eq!(Some(&"0101".to_string()), form.field_value(42));
    assert_eq!(Some(&"3112".to_string()), form.field_value(43));
    assert_eq!(Some(&"23".to_string()), form.field_value(2));
    assert_eq!(Some(&"23".to_string()), form.field_value(28));
    form.fill_year_info("20".to_string()).unwrap();
    assert_eq!(Some(&"".to_string()), form.field_value(2));
    form.fill_year_info("12345".to_string()).unwrap();
    assert_eq!(Some(&"345".to_string()), form.field_value(28));
}

#[test]
fn a_year_of_one_character_is_refused() {
    let mut form = form();
    assert_eq!(
        Err(Error::UserError(UserErrorKind::Generic("Year must have four digits".to_string()))),
        form.fill_year_info("2".to_string())
    );
    assert!(form.fill_year_info("".to_string()).is_err());
    assert_eq!(None, form.field_value(42));
    assert_eq!(None, form.field_value(2));
}

#[test]
fn fill_field_reports_what_the_template_refuses() {
    let mut template = template(30);
    template.fields[22].text = None;
    let mut form = load_gpd_form(template);
    assert_eq!(Ok(()), form.fill_field(FormField::UserName, "Ana".to_string()));
    assert_eq!(
        Err(Error::Pdf(PdfErrorKind::Value(ValueError::TypeMismatch))),
        form.fill_field(FormField::PersonalDeduction, "3600".to_string())
    );
    assert_eq!(
        Err(Error::Pdf(PdfErrorKind::Value(ValueError::NotFound))),
        form.fill_field(FormField::PeriodEnd, "3112".to_string())
    );
    assert_eq!(Some(&"3112".to_string()), form.field_value(43));
    assert_eq!(
        Err(Error::Pdf(PdfErrorKind::Value(ValueError::NotFound))),
        form.fill_year_info("2023".to_string())
    );
    assert_eq!(Some(&"0101".to_string()), form.field_value(42));
    assert_eq!(None, form.field_value(2));
}

#[test]
fn a_report_into_a_short_template_stops_at_the_first_refusal() {
    let mut form = load_gpd_form(template(20));
    form.add_gip_info(dec(100, 0), dec(0, 0));
    assert!(matches!(
        form.to_dict(),
        Err(Error::Pdf(PdfErrorKind::Value(ValueError::NotFound)))
    ));
    assert_eq!(Some(&"100.00".to_string()), form.field_value(6));
    assert_eq!(Some(&"100.00".to_string()), form.field_value(19));
    assert_eq!(Some(&"0.00".to_string()), form.field_value(18));
    assert_eq!(Some(&"0.00".to_string()), form.field_value(20));
    assert_eq!(None, form.field_value(29));
    assert_eq!(None, form.field_value(21));
}

#[test]
fn a_report_that_overflows_writes_nothing() {
    let max: i128 = 79_228_162_514_264_337_593_543_950_335;
    let mut form = form();
    form.add_gip_info(dec(max, 0), dec(0, 0));
    form.add_ams_info(dec(max, 0), dec(0, 0));
    assert!(matches!(form.to_dict(), Err(Error::AmountOverflow)));
    assert_eq!(None, form.field_value(6));
    assert_eq!(None, form.field_value(19));
}

#[test]
fn values_without_a_name_are_dropped_and_nothing_is_patched() {
    let mut template = template(44);
    template.fields[12].name = None;
    template.fields[19].name = None;
    template.fields[22].name = Some(String::new());
    let mut form = load_gpd_form(template);
    form.fill_field(FormField::RentIncome, "12".to_string()).unwrap();
    let dict = form.to_dict().unwrap();
    assert_eq!(13, dict.len());
    assert_eq!(None, dict.get(&"8 Dr&#382;ava".to_string()));
    assert_eq!(None, dict.get(&"".to_string()));
    assert_eq!(None, dict.get(&"g19".to_string()));
    assert_eq!(Some(&"0.00".to_string()), dict.get(&"g21".to_string()));
}

#[test]
fn fill_field_of_a_template_sets_its_text() {
    let mut template = template(3);
    template.fields[1].text = None;
    assert_eq!(Ok(()), fill_field(&mut template, 0, "a".to_string()));
    assert_eq!(Some("a".to_string()), template.fields[0].text);
    assert_eq!(Some("g0".to_string()), template.fields[0].name);
    assert_eq!(Some(&"a".to_string()), template.get_text(0));
    assert_eq!(Some(&"g0".to_string()), template.get_name(0));
    assert_eq!(
        Err(Error::Pdf(PdfErrorKind::Value(ValueError::TypeMismatch))),
        fill_field(&mut template, 1, "b".to_string())
    );
    assert_eq!(None, template.fields[1].text);
    assert_eq!(None, template.get_text(1));
    assert_eq!(
        Err(Error::Pdf(PdfErrorKind::Value(ValueError::NotFound))),
        fill_field(&mut template, 3, "c".to_string())
    );
    assert_eq!(3, template.len());
    assert_eq!(None, template.get_name(3));
    assert_eq!(None, template.get_text(3));
}

#[test]
fn a_field_map_keeps_the_last_value_of_a_position() {
    let mut map = FormFieldMap::new();
    assert_eq!(None, map.get(0));
    map.insert(5, "a".to_string());
    map.insert(2, "b".to_string());
    map.insert(5, "c".to_string());
    map.insert(7, "d".to_string());
    assert_eq!(Some(&"c".to_string()), map.get(5));
    assert_eq!(Some(&"b".to_string()), map.get(2));
    assert_eq!(Some(&"d".to_string()), map.get(7));
    assert_eq!(None, map.get(0));
    assert_eq!(None, map.get(6));
    assert_eq!(None, map.get(8));
}

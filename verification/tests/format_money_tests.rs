use fbihtax::amount::Amount;
use fbihtax::forms::formutils::format_money_value;

fn dec(mantissa: i128, scale: u32) -> Amount {
    Amount::from_parts(mantissa, scale).unwrap()
}

#[test]
fn amsform_format_money_value_test() {
    let pairs = [
        (dec(33333, 4), "3.33"),
        (dec(66663, 4), "6.67"),
        (dec(112345, 5), "1.12"),
        (dec(0, 0), "0.00"),
        (dec(1000, 2), "10.00"),
        (dec(123456789, 4), "12345.68"),
    ];

    for (value, expected) in pairs {
        assert_eq!(expected, format_money_value(value))
    }
}

#[test]
fn formutils_format_money_value_test() {
    let pairs = [
        (dec(33333, 4), "3.33"),
        (dec(66663, 4), "6.67"),
        (dec(112345, 5), "1.12"),
        (dec(0, 0), "0.00"),
        (dec(1000, 2), "10.00"),
        (dec(123456789, 4), "12345.68"),
    ];

    for (value, expected) in pairs {
        assert_eq!(expected, format_money_value(value))
    }
}

#[test]
fn format_money_value_rounds_half_to_even() {
    let pairs = [
        (dec(3336, 3), "3.34"),
        (dec(3335, 3), "3.34"),
        (dec(3345, 3), "3.34"),
        (dec(3355, 3), "3.36"),
        (dec(2675, 3), "2.68"),
        (dec(1005, 3), "1.00"),
        (dec(1015, 3), "1.02"),
        (dec(5, 3), "0.00"),
        (dec(15, 3), "0.02"),
        (dec(30050001, 7), "3.01"),
        (dec(3005, 3), "3.00"),
        (dec(9995, 3), "10.00"),
        (dec(99949, 4), "9.99"),
    ];
    for (value, expected) in pairs {
        assert_eq!(expected, format_money_value(value))
    }
}

#[test]
fn format_money_value_of_negative_values() {
    let pairs = [
        (dec(-3336, 3), "-3.34"),
        (dec(-3335, 3), "-3.34"),
        (dec(-3345, 3), "-3.34"),
        (dec(-1, 0), "-1.00"),
        (dec(-5, 1), "-0.50"),
        (dec(-5, 2), "-0.05"),
        (dec(-5, 3), "0.00"),
        (dec(-4, 3), "0.00"),
        (dec(-15, 3), "-0.02"),
        (dec(-123456789, 4), "-12345.68"),
    ];
    for (value, expected) in pairs {
        assert_eq!(expected, format_money_value(value))
    }
}

#[test]
fn format_money_value_pads_to_two_digits() {
    let pairs = [
        (dec(768, 1), "76.80"),
        (dec(7, 0), "7.00"),
        (dec(1, 1), "0.10"),
        (dec(1, 2), "0.01"),
        (dec(100, 0), "100.00"),
        (dec(0, 5), "0.00"),
        (dec(0, 28), "0.00"),
    ];
    for (value, expected) in pairs {
        assert_eq!(expected, format_money_value(value))
    }
}

#[test]
fn format_money_value_of_the_largest_amounts() {
    let max: i128 = 79_228_162_514_264_337_593_543_950_335;
    assert_eq!("79228162514264337593543950335.00", format_money_value(dec(max, 0)));
    assert_eq!("-79228162514264337593543950335.00", format_money_value(dec(-max, 0)));
    assert_eq!("792281625142643375935439503.35", format_money_value(dec(max, 2)));
    assert_eq!("79228162514264337593543950.34", format_money_value(dec(max, 3)));
    assert_eq!("7.92", format_money_value(dec(max, 28)));
}

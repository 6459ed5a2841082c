use fbihtax::amount::{Amount, MAX_MANTISSA, MAX_SCALE};

fn dec(mantissa: i128, scale: u32) -> Amount {
    Amount::from_parts(mantissa, scale).unwrap()
}

fn parts(a: Amount) -> (i128, u32) {
    (a.mantissa(), a.scale())
}

fn pow10(n: u32) -> i128 {
    let mut p: i128 = 1;
    for _ in 0..n {
        p *= 10;
    }
    p
}

// A small generator of test values, so that every run sees the same ones.
struct Sequence {
    state: u64,
}

impl Sequence {
    fn next(&mut self) -> u64 {
        self.state = self
            .state
            .wrapping_mul(6364136223846793005)
            .wrapping_add(1442695040888963407);
        self.state >> 11
    }

    fn amount(&mut self) -> (i128, u32) {
        let bits = (self.next() % 97) as u32;
        let raw = ((self.next() as u128) << 64 | (self.next() as u128) << 11 | self.next() as u128)
            & ((1u128 << 96) - 1);
        let magnitude = if bits == 0 { 0 } else { raw >> (96 - bits) };
        let sign: i128 = if self.next() % 2 == 0 { 1 } else { -1 };
        let scale = (self.next() % 29) as u32;
        (sign * magnitude as i128, scale)
    }
}

fn fits(m: i128) -> bool {
    -MAX_MANTISSA <= m && m <= MAX_MANTISSA
}

// The exact product where it is representable as it stands.
fn exact_product(a: (i128, u32), b: (i128, u32)) -> Option<(i128, u32)> {
    if a.0 == 0 || b.0 == 0 {
        return Some((0, 0));
    }
    let m = a.0.checked_mul(b.0)?;
    if fits(m) && a.1 + b.1 <= MAX_SCALE {
        Some((m, a.1 + b.1))
    } else {
        None
    }
}

// The exact sum where both operands and the sum fit at the larger scale.
fn exact_sum(a: (i128, u32), b: (i128, u32)) -> Option<(i128, u32)> {
    if a.0 == 0 {
        return Some(b);
    }
    if b.0 == 0 {
        return Some(a);
    }
    let scale = a.1.max(b.1);
    let x = a.0.checked_mul(pow10(scale - a.1))?;
    let y = b.0.checked_mul(pow10(scale - b.1))?;
    if fits(x) && fits(y) && fits(x + y) {
        Some((x + y, scale))
    } else {
        None
    }
}

fn exact_difference(a: (i128, u32), b: (i128, u32)) -> Option<(i128, u32)> {
    if a.0 == 0 {
        return Some((-b.0, b.1));
    }
    if b.0 == 0 {
        return Some(a);
    }
    let scale = a.1.max(b.1);
    let x = a.0.checked_mul(pow10(scale - a.1))?;
    let y = b.0.checked_mul(pow10(scale - b.1))?;
    if fits(x) && fits(y) && fits(x - y) {
        Some((x - y, scale))
    } else {
        None
    }
}

fn rounded(a: (i128, u32), dp: u32) -> (i128, u32) {
    if a.1 <= dp {
        return a;
    }
    let unit = pow10(a.1 - dp);
    let magnitude = a.0.abs();
    let quotient = magnitude / unit;
    let rest = magnitude % unit;
    let nearest = if 2 * rest > unit || (2 * rest == unit && quotient % 2 == 1) {
        quotient + 1
    } else {
        quotient
    };
    (if a.0 < 0 { -nearest } else { nearest }, dp)
}

fn plain_text(a: (i128, u32)) -> String {
    let magnitude = a.0.unsigned_abs();
    let unit = pow10(a.1) as u128;
    let sign = if a.0 < 0 { "-" } else { "" };
    if a.1 == 0 {
        format!("{}{}", sign, magnitude / unit)
    } else {
        format!(
            "{}{}.{:0width$}",
            sign,
            magnitude / unit,
            magnitude % unit,
            width = a.1 as usize
        )
    }
}

#[test]
fn from_parts_takes_what_is_representable() {
    assert_eq!((5, 3), parts(dec(5, 3)));
    assert_eq!((-5, 0), parts(dec(-5, 0)));
    assert_eq!((MAX_MANTISSA, 28), parts(dec(MAX_MANTISSA, 28)));
    assert_eq!((-MAX_MANTISSA, 0), parts(dec(-MAX_MANTISSA, 0)));
    assert!(Amount::from_parts(MAX_MANTISSA + 1, 0).is_none());
    assert!(Amount::from_parts(-MAX_MANTISSA - 1, 0).is_none());
    assert!(Amount::from_parts(1, 29).is_none());
    assert!(Amount::from_parts(i128::MAX, 0).is_none());
    assert!(Amount::from_parts(i128::MIN, 0).is_none());
    assert!(Amount::from_parts(0, u32::MAX).is_none());
}

#[test]
fn new_and_zero() {
    assert_eq!((1020, 4), parts(Amount::new(1020, 4)));
    assert_eq!((i64::MIN as i128, 28), parts(Amount::new(i64::MIN, 28)));
    assert_eq!((0, 0), parts(Amount::zero()));
}

#[test]
fn product_of_small_values_is_exact() {
    assert_eq!((3200, 2), parts(dec(800, 0).checked_mul(dec(4, 2)).unwrap()));
    assert_eq!((2200, 3), parts(dec(110, 2).checked_mul(dec(20, 1)).unwrap()));
    assert_eq!((-6, 2), parts(dec(-2, 1).checked_mul(dec(3, 1)).unwrap()));
    assert_eq!((6, 28), parts(dec(2, 14).checked_mul(dec(3, 14)).unwrap()));
}

#[test]
fn product_with_zero_is_the_plain_zero() {
    assert_eq!((0, 0), parts(dec(0, 5).checked_mul(dec(4, 2)).unwrap()));
    assert_eq!((0, 0), parts(dec(123, 5).checked_mul(dec(0, 20)).unwrap()));
    assert_eq!((0, 0), parts(dec(0, 28).checked_mul(dec(0, 28)).unwrap()));
    assert_eq!((0, 0), parts(dec(-7, 1).checked_mul(dec(0, 0)).unwrap()));
}

#[test]
fn sum_with_zero_hands_the_other_operand_back() {
    assert_eq!((5, 0), parts(dec(0, 2).checked_add(dec(5, 0)).unwrap()));
    assert_eq!((5, 0), parts(dec(5, 0).checked_add(dec(0, 2)).unwrap()));
    assert_eq!((0, 7), parts(dec(0, 3).checked_add(dec(0, 7)).unwrap()));
    assert_eq!((MAX_MANTISSA, 1), parts(dec(0, 28).checked_add(dec(MAX_MANTISSA, 1)).unwrap()));
}

#[test]
fn difference_with_zero() {
    assert_eq!((-5, 1), parts(dec(0, 4).checked_sub(dec(5, 1)).unwrap()));
    assert_eq!((5, 1), parts(dec(5, 1).checked_sub(dec(0, 4)).unwrap()));
    assert_eq!((0, 6), parts(dec(0, 2).checked_sub(dec(0, 6)).unwrap()));
    assert_eq!((MAX_MANTISSA, 0), parts(dec(0, 9).checked_sub(dec(-MAX_MANTISSA, 0)).unwrap()));
}

#[test]
fn sum_and_difference_align_to_the_larger_scale() {
    assert_eq!((76800, 2), parts(dec(800, 0).checked_sub(dec(3200, 2)).unwrap()));
    assert_eq!((150, 2), parts(dec(1, 0).checked_add(dec(50, 2)).unwrap()));
    assert_eq!((0, 2), parts(dec(15, 1).checked_sub(dec(150, 2)).unwrap()));
    assert_eq!((0, 3), parts(dec(-15, 1).checked_add(dec(1500, 3)).unwrap()));
    assert_eq!((-1, 28), parts(dec(0, 0).checked_sub(dec(1, 28)).unwrap()));
}

#[test]
fn arithmetic_at_the_edge_of_the_mantissa() {
    assert_eq!(
        (MAX_MANTISSA, 0),
        parts(dec(MAX_MANTISSA - 1, 0).checked_add(dec(1, 0)).unwrap())
    );
    assert_eq!(
        (-MAX_MANTISSA, 3),
        parts(dec(-MAX_MANTISSA + 7, 3).checked_sub(dec(7, 3)).unwrap())
    );
    assert_eq!((MAX_MANTISSA, 2), parts(dec(MAX_MANTISSA, 0).checked_mul(dec(1, 2)).unwrap()));
    let half = (MAX_MANTISSA - 1) / 2;
    assert_eq!((MAX_MANTISSA - 1, 5), parts(dec(half, 5).checked_mul(dec(2, 0)).unwrap()));
    assert_eq!((MAX_MANTISSA - 1, 5), parts(dec(half, 5).checked_add(dec(half, 5)).unwrap()));
    assert!(dec(MAX_MANTISSA, 0).checked_add(dec(1, 0)).is_none());
    assert!(dec(MAX_MANTISSA, 0).checked_mul(dec(2, 0)).is_none());
    assert!(dec(-MAX_MANTISSA, 0).checked_sub(dec(1, 0)).is_none());
}

#[test]
fn products_agree_with_exact_arithmetic() {
    let mut values = Sequence { state: 17 };
    let mut exact = 0;
    for _ in 0..20000 {
        let a = values.amount();
        let b = values.amount();
        if let Some(expected) = exact_product(a, b) {
            exact += 1;
            let r = dec(a.0, a.1).checked_mul(dec(b.0, b.1));
            assert_eq!(Some(expected), r.map(parts), "{:?} * {:?}", a, b);
        }
    }
    assert!(exact > 1000);
}

#[test]
fn sums_agree_with_exact_arithmetic() {
    let mut values = Sequence { state: 23 };
    let mut exact = 0;
    for _ in 0..20000 {
        let a = values.amount();
        let b = values.amount();
        if let Some(expected) = exact_sum(a, b) {
            exact += 1;
            let r = dec(a.0, a.1).checked_add(dec(b.0, b.1));
            assert_eq!(Some(expected), r.map(parts), "{:?} + {:?}", a, b);
        }
    }
    assert!(exact > 1000);
}

#[test]
fn differences_agree_with_exact_arithmetic() {
    let mut values = Sequence { state: 29 };
    let mut exact = 0;
    for _ in 0..20000 {
        let a = values.amount();
        let b = values.amount();
        if let Some(expected) = exact_difference(a, b) {
            exact += 1;
            let r = dec(a.0, a.1).checked_sub(dec(b.0, b.1));
            assert_eq!(Some(expected), r.map(parts), "{:?} - {:?}", a, b);
        }
    }
    assert!(exact > 1000);
}

#[test]
fn close_scales_agree_with_exact_arithmetic() {
    let mut values = Sequence { state: 31 };
    let mut exact = 0;
    for _ in 0..20000 {
        let a = values.amount();
        let mut b = values.amount();
        b.1 = (a.1 + (values.next() % 4) as u32).min(28);
        if let Some(expected) = exact_sum(a, b) {
            exact += 1;
            let r = dec(a.0, a.1).checked_add(dec(b.0, b.1));
            assert_eq!(Some(expected), r.map(parts), "{:?} + {:?}", a, b);
        }
        if let Some(expected) = exact_difference(b, a) {
            exact += 1;
            let r = dec(b.0, b.1).checked_sub(dec(a.0, a.1));
            assert_eq!(Some(expected), r.map(parts), "{:?} - {:?}", b, a);
        }
    }
    assert!(exact > 5000);
}

#[test]
fn sums_near_the_edge_agree_with_exact_arithmetic() {
    let mut values = Sequence { state: 47 };
    let mut exact = 0;
    for _ in 0..20000 {
        let shift = (values.next() % 6) as u32;
        let scale = (values.next() % (29 - shift as u64)) as u32;
        let top = MAX_MANTISSA / pow10(shift);
        let sign: i128 = if values.next() % 2 == 0 { 1 } else { -1 };
        let a = (sign * (top - (values.next() % 1000) as i128), scale);
        let other = values.amount();
        let spread = (values.next() % 3000) as i128 - 1500;
        let b = if values.next() % 2 == 0 {
            (other.0, scale + shift)
        } else {
            (-a.0 * pow10(shift) + spread, scale + shift)
        };
        if !fits(b.0) {
            continue;
        }
        for (x, y) in [(a, b), (b, a)] {
            if let Some(expected) = exact_sum(x, y) {
                exact += 1;
                let r = dec(x.0, x.1).checked_add(dec(y.0, y.1));
                assert_eq!(Some(expected), r.map(parts), "{:?} + {:?}", x, y);
            }
            if let Some(expected) = exact_difference(x, y) {
                exact += 1;
                let r = dec(x.0, x.1).checked_sub(dec(y.0, y.1));
                assert_eq!(Some(expected), r.map(parts), "{:?} - {:?}", x, y);
            }
        }
    }
    assert!(exact > 5000);
}

#[test]
fn products_near_the_edge_agree_with_exact_arithmetic() {
    let mut values = Sequence { state: 53 };
    let mut exact = 0;
    for _ in 0..20000 {
        let bits = (values.next() % 95) as u32 + 1;
        let factor = ((values.next() as i128) << 40 | values.next() as i128) & ((1i128 << bits) - 1);
        if factor == 0 {
            continue;
        }
        let sign: i128 = if values.next() % 2 == 0 { 1 } else { -1 };
        let other = MAX_MANTISSA / factor - (values.next() % 3) as i128 + 1;
        if !fits(other) {
            continue;
        }
        let first = (values.next() % 29) as u32;
        let second = (values.next() % (29 - first as u64)) as u32;
        let a = (factor, first);
        let b = (sign * other, second);
        for (x, y) in [(a, b), (b, a)] {
            if let Some(expected) = exact_product(x, y) {
                exact += 1;
                let r = dec(x.0, x.1).checked_mul(dec(y.0, y.1));
                assert_eq!(Some(expected), r.map(parts), "{:?} * {:?}", x, y);
            }
        }
    }
    assert!(exact > 5000);
}

#[test]
fn rounding_agrees_with_exact_arithmetic() {
    let mut values = Sequence { state: 37 };
    for _ in 0..20000 {
        let a = values.amount();
        let dp = (values.next() % 30) as u32;
        assert_eq!(rounded(a, dp), parts(dec(a.0, a.1).round_dp(dp)), "{:?} to {}", a, dp);
        assert_eq!(rounded(a, 2), parts(dec(a.0, a.1).round_dp(2)), "{:?} to 2", a);
    }
}

#[test]
fn rounding_goes_to_the_even_neighbour_on_a_tie() {
    assert_eq!((6, 0), parts(dec(65, 1).round_dp(0)));
    assert_eq!((8, 0), parts(dec(75, 1).round_dp(0)));
    assert_eq!((-6, 0), parts(dec(-65, 1).round_dp(0)));
    assert_eq!((-8, 0), parts(dec(-75, 1).round_dp(0)));
    assert_eq!((334, 2), parts(dec(3335, 3).round_dp(2)));
    assert_eq!((334, 2), parts(dec(3345, 3).round_dp(2)));
    assert_eq!((335, 2), parts(dec(33450001, 7).round_dp(2)));
    assert_eq!((0, 2), parts(dec(-5, 3).round_dp(2)));
    assert_eq!((0, 2), parts(dec(0, 5).round_dp(2)));
    assert_eq!((0, 1), parts(dec(0, 1).round_dp(2)));
    assert_eq!((12, 1), parts(dec(12, 1).round_dp(2)));
}

#[test]
fn plain_notation_agrees_with_the_digits() {
    let mut values = Sequence { state: 41 };
    for _ in 0..20000 {
        let a = values.amount();
        assert_eq!(plain_text(a), dec(a.0, a.1).to_string(), "{:?}", a);
    }
}

#[test]
fn plain_notation_of_chosen_values() {
    assert_eq!("0", dec(0, 0).to_string());
    assert_eq!("0.00", dec(0, 2).to_string());
    assert_eq!("3600", dec(3600, 0).to_string());
    assert_eq!("36.00", dec(3600, 2).to_string());
    assert_eq!("0.05", dec(5, 2).to_string());
    assert_eq!("-0.05", dec(-5, 2).to_string());
    assert_eq!("-12.5", dec(-125, 1).to_string());
    assert_eq!("0.0000000000000000000000000001", dec(1, 28).to_string());
    assert_eq!("79228162514264337593543950335", dec(MAX_MANTISSA, 0).to_string());
    assert_eq!("-7.9228162514264337593543950335", dec(-MAX_MANTISSA, 28).to_string());
}

#[test]
fn parse_reads_plain_notation() {
    assert_eq!((3600, 0), parts(Amount::parse("3600").unwrap()));
    assert_eq!((7680, 2), parts(Amount::parse("76.80").unwrap()));
    assert_eq!((-5, 2), parts(Amount::parse("-0.05").unwrap()));
    assert_eq!((0, 2), parts(Amount::parse("0.00").unwrap()));
    assert!(Amount::parse("").is_err());
    assert!(Amount::parse("seven").is_err());
    assert!(Amount::parse("1.2.3").is_err());
}

#[test]
fn parse_reads_back_what_to_string_writes() {
    let mut values = Sequence { state: 43 };
    for _ in 0..5000 {
        let a = values.amount();
        let text = dec(a.0, a.1).to_string();
        assert_eq!(a, parts(Amount::parse(&text).unwrap()), "{}", text);
    }
}

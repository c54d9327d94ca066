use dci_money::currency::Currency;
use dci_money::decimal::Amount;
use dci_money::money::{Money, MoneyError};
use std::cmp::Ordering;
use std::collections::hash_map::DefaultHasher;
use std::hash::{Hash, Hasher};

fn dec(mantissa: i128, scale: u32) -> Amount {
    Amount::from_parts(mantissa, scale).unwrap()
}

fn usd(mantissa: i128, scale: u32) -> Money {
    Money::new(dec(mantissa, scale), Currency::usd())
}

fn hash_of(m: &Money) -> u64 {
    let mut h = DefaultHasher::new();
    m.hash(&mut h);
    h.finish()
}

#[test]
fn test_eq() {
    let m1 = Money::from((1u32, Currency::usd()));
    let m2 = Money::from((1u32, Currency::usd()));
    assert_eq!(m1, m2);
}

#[test]
fn test_ne() {
    let m1 = Money::from((1u32, Currency::usd()));
    let m2 = Money::from((2u32, Currency::usd()));
    assert_ne!(m1, m2);
}

#[test]
fn test_zero() {
    let m1 = Money::zero(Currency::usd());
    let m2 = Money::new(Amount::zero(), Currency::usd());
    assert_eq!(m1.abs(), m2);
}

#[test]
fn test_abs() {
    let m1 = Money::new(Amount::from_i64(-1), Currency::usd());
    let m2 = Money::new(Amount::from_i64(1), Currency::usd());
    assert_eq!(m1.abs(), m2);
}

#[test]
fn test_add() {
    let m1 = Money::from((1u32, Currency::usd()));
    let m2 = Money::from((2u32, Currency::usd()));
    let m3 = m1.clone();
    let m4 = m2.clone();

    let m5 = m1.add(m2).unwrap();
    let m6 = Money::add(m3, m4).unwrap();

    assert_eq!(m5, Money::new(Amount::from_i64(3), Currency::usd()));
    assert_eq!(m6, Money::new(Amount::from_i64(3), Currency::usd()));
}

#[test]
fn new_rescales_to_currency_digits() {
    let m = Money::new(Amount::from_i64(7), Currency::usd());
    assert_eq!(m.amount().mantissa(), 700);
    assert_eq!(m.amount().scale(), 2);
    let y = Money::new(dec(25, 1), Currency::jpy());
    assert_eq!(y.amount().mantissa(), 3);
    assert_eq!(y.amount().scale(), 0);
}

#[test]
fn new_rounds_half_away_from_zero() {
    assert_eq!(usd(1234, 3).amount().mantissa(), 123);
    assert_eq!(usd(1235, 3).amount().mantissa(), 124);
    assert_eq!(usd(-1235, 3).amount().mantissa(), -124);
    assert_eq!(usd(-1234, 3).amount().mantissa(), -123);
    assert_eq!(usd(1235, 3).amount().scale(), 2);
}

#[test]
fn checked_new_reports_overflow() {
    let huge = dec(79_228_162_514_264_337_593_543_950_335, 0);
    assert_eq!(Money::checked_new(huge, Currency::usd()), Err(MoneyError::ArithmeticOverflow));
    let ok = Money::checked_new(Amount::from_i64(5), Currency::usd()).unwrap();
    assert_eq!(ok, Money::dollars_i32(5));
}

#[test]
fn currency_table_lookup() {
    let eur = Currency::from_num(978).unwrap();
    assert_eq!(eur.num(), 978);
    assert_eq!(eur.digits(), 2);
    assert_eq!(Currency::from_num(48).unwrap().digits(), 3);
    assert_eq!(Currency::usd().digits(), 2);
    assert_eq!(Currency::jpy().digits(), 0);
    assert!(Currency::from_num(959).is_none());
    assert!(Currency::from_num(1).is_none());
}

#[test]
fn subtract_undoes_add() {
    let m = usd(1050, 2);
    let n = usd(-325, 2);
    let sum = m.add(n).unwrap();
    assert_eq!(sum.subtract(n).unwrap(), m);
}

#[test]
fn add_commutes_and_associates() {
    let a = Money::dollars_i32(1);
    let b = usd(250, 2);
    let c = Money::dollars_i64(-7);
    assert_eq!(a.add(b).unwrap(), b.add(a).unwrap());
    let left = a.add(b).unwrap().add(c).unwrap();
    let right = a.add(b.add(c).unwrap()).unwrap();
    assert_eq!(left, right);
    assert_eq!(left.amount().mantissa(), -350);
}

#[test]
fn add_across_currencies_fails() {
    let r = Money::dollars_i32(1).add(Money::yens_i32(1));
    assert_eq!(r, Err(MoneyError::NotSameCurrencyError));
}

#[test]
fn add_five_usd_to_five_jpy_is_mismatch() {
    let r = Money::dollars_i32(5).add(Money::yens_i32(5));
    assert_eq!(r, Err(MoneyError::NotSameCurrencyError));
    let s = Money::yens_i32(5).subtract(Money::dollars_i32(5));
    assert_eq!(s, Err(MoneyError::NotSameCurrencyError));
}

#[test]
fn add_overflow_is_reported() {
    let big = Money::new(dec(79_228_162_514_264_337_593_543_950_335, 0), Currency::jpy());
    assert_eq!(big.add(Money::yens_i32(1)), Err(MoneyError::ArithmeticOverflow));
}

#[test]
fn negated_twice_is_identity() {
    let m = usd(-1999, 2);
    assert_eq!(m.negated().amount().mantissa(), 1999);
    assert_eq!(m.negated().negated(), m);
}

#[test]
fn predicates() {
    assert!(Money::dollars_i32(3).is_positive());
    assert!(!Money::dollars_i32(3).is_negative());
    assert!(Money::dollars_i32(-3).is_negative());
    assert!(Money::zero(Currency::jpy()).is_zero());
    assert!(!Money::zero(Currency::jpy()).is_positive());
}

#[test]
fn equality_and_hash_agree() {
    let a = Money::from((12i32, Currency::usd()));
    let b = Money::new(dec(1200, 2), Currency::usd());
    let c = Money::from((12i64, Currency::usd()));
    assert_eq!(a, a);
    assert_eq!(a, b);
    assert_eq!(b, a);
    assert_eq!(b, c);
    assert_eq!(a, c);
    assert_eq!(hash_of(&a), hash_of(&b));
    assert_eq!(hash_of(&a), hash_of(&c));
    assert_ne!(Money::yens_i32(12), Money::from((12u64, Currency::jpy())).negated());
}

#[test]
fn ordering_within_and_across_currencies() {
    let a = Money::dollars_i32(1);
    let b = Money::dollars_i32(2);
    assert_eq!(a.partial_cmp(&b), Some(Ordering::Less));
    assert_eq!(b.partial_cmp(&a), Some(Ordering::Greater));
    assert_eq!(a.partial_cmp(&a), Some(Ordering::Equal));
    assert!(a < b);
    let y = Money::yens_i32(1);
    assert_eq!(a.partial_cmp(&y), None);
    assert!(!(a < y) && !(a > y) && !(a == y));
}

#[test]
fn times_rescales_product() {
    let m = Money::dollars_i32(1).times(dec(15, 1)).unwrap();
    assert_eq!(m, usd(150, 2));
    let r = usd(333, 2).times(dec(5, 1)).unwrap();
    assert_eq!(r.amount().mantissa(), 167);
    assert_eq!(r.amount().scale(), 2);
}

#[test]
fn divided_by_rescales_quotient() {
    let m = Money::dollars_i32(10).divided_by(Amount::from_i64(3)).unwrap();
    assert_eq!(m, usd(333, 2));
    let y = Money::yens_i32(10).divided_by(Amount::from_i64(4)).unwrap();
    assert_eq!(y, Money::yens_i32(3));
}

#[test]
fn divided_by_zero_fails() {
    let r = Money::dollars_i32(10).divided_by(Amount::zero());
    assert_eq!(r, Err(MoneyError::DivisionByZero));
}

#[test]
fn parse_reads_and_rescales() {
    let m = Money::parse("12.345", Currency::usd()).unwrap();
    assert_eq!(m, usd(1235, 2));
    let y = Money::parse("-42", Currency::jpy()).unwrap();
    assert_eq!(y, Money::yens_i64(-42));
    assert!(Money::parse("abc", Currency::usd()).is_none());
    assert!(Amount::parse("1e").is_none());
}

#[test]
fn dollars_and_yens_from_decimals() {
    assert_eq!(Money::dollars(dec(5, 0)), Money::dollars_i64(5));
    assert_eq!(Money::yens(dec(49, 1)), Money::yens_i32(5));
    assert_eq!(Money::whole_u64(3, Currency::usd()), Money::dollars_i32(3));
    assert_eq!(Money::dollars_i32(-2).currency().num(), 840);
}

#[test]
fn from_parts_bounds() {
    assert!(Amount::from_parts(1, 29).is_none());
    assert!(Amount::from_parts(79_228_162_514_264_337_593_543_950_336, 0).is_none());
    assert!(Amount::from_parts(-79_228_162_514_264_337_593_543_950_335, 28).is_some());
}

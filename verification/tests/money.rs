use event_ticketing::shared::errors::DomainError;
use event_ticketing::shared::value_objects::{Amount, Money};

fn dec(mantissa: i128, scale: u32) -> Amount {
    Amount::new(mantissa, scale)
}

#[test]
fn money_creation_success() {
    let money = Money::new(dec(10050, 2), "USD".to_string()).unwrap();
    assert_eq!(money.amount(), dec(10050, 2));
    assert_eq!(money.currency(), "USD");
}

#[test]
fn money_creation_fails_on_negative_amount() {
    let money = Money::new(dec(-100, 1), "USD".to_string());
    assert!(matches!(money, Err(DomainError::NegativeMoney)));
}

#[test]
fn money_add_success() {
    let m1 = Money::new(dec(100, 1), "USD".to_string()).unwrap();
    let m2 = Money::new(dec(200, 1), "USD".to_string()).unwrap();
    let m3 = m1.add(&m2).unwrap();
    assert_eq!(m3.amount(), dec(300, 1));
    assert_eq!(m3.currency(), "USD");
}

#[test]
fn money_add_fails_on_currency_mismatch() {
    let m1 = Money::new(dec(100, 1), "USD".to_string()).unwrap();
    let m2 = Money::new(dec(200, 1), "EUR".to_string()).unwrap();
    let result = m1.add(&m2);
    assert!(matches!(result, Err(DomainError::CurrencyMismatch)));
}

#[test]
fn money_subtract_success() {
    let m1 = Money::new(dec(300, 1), "USD".to_string()).unwrap();
    let m2 = Money::new(dec(100, 1), "USD".to_string()).unwrap();
    let m3 = m1.subtract(&m2).unwrap();
    assert_eq!(m3.amount(), dec(200, 1));
}

#[test]
fn money_subtract_fails_on_negative_result() {
    let m1 = Money::new(dec(100, 1), "USD".to_string()).unwrap();
    let m2 = Money::new(dec(300, 1), "USD".to_string()).unwrap();
    let result = m1.subtract(&m2);
    assert!(matches!(result, Err(DomainError::NegativeMoney)));
}

#[test]
fn amounts_compare_by_value_whatever_the_scale() {
    assert_eq!(dec(100, 1), dec(1000, 2));
    assert_ne!(dec(100, 1), dec(101, 1));
    assert!(dec(-1, 3).is_negative());
    assert!(!Amount::zero().is_negative());
}

#[test]
fn money_add_aligns_scales_exactly() {
    let m1 = Money::new(dec(1005, 2), "IDR".to_string()).unwrap();
    let m2 = Money::new(dec(5, 0), "IDR".to_string()).unwrap();
    let sum = m1.add(&m2).unwrap();
    assert_eq!(sum.amount(), dec(1505, 2));
    let back = sum.subtract(&m2).unwrap();
    assert_eq!(back, m1);
}

#[test]
fn money_multiply_by_quantity() {
    let price = Money::new(dec(12525, 2), "IDR".to_string()).unwrap();
    let total = price.multiply(3).unwrap();
    assert_eq!(total.amount(), dec(37575, 2));
    assert_eq!(total.currency(), "IDR");
    assert!(matches!(price.multiply(-1), Err(DomainError::NegativeMoney)));
    assert_eq!(price.multiply(0).unwrap().amount(), Amount::zero());
}

#[test]
fn money_multiply_range_is_checked() {
    let big = Money::new(dec(0xFFFF_FFFF_FFFF_FFFF_FFFF_FFFF, 0), "IDR".to_string()).unwrap();
    assert!(!big.can_multiply(2));
    assert!(big.can_multiply(1));
    let small = Money::new(dec(7, 0), "IDR".to_string()).unwrap();
    assert!(small.can_multiply(i64::from(i32::MAX)));
}

#[test]
fn money_zero_and_equality() {
    let zero = Money::zero("EUR".to_string());
    assert_eq!(zero.amount(), Amount::zero());
    assert_eq!(zero.currency(), "EUR");
    assert_ne!(zero, Money::zero("USD".to_string()));
    assert!(Money::new(dec(0, 0), "EUR".to_string()).is_ok());
}

#[test]
fn sums_and_differences_keep_the_larger_scale() {
    let m1 = Money::new(dec(15, 1), "USD".to_string()).unwrap();
    let m2 = Money::new(dec(225, 2), "USD".to_string()).unwrap();
    let sum = m1.add(&m2).unwrap();
    assert_eq!((sum.amount().mantissa(), sum.amount().scale()), (375, 2));
    let back = sum.subtract(&m2).unwrap();
    assert_eq!((back.amount().mantissa(), back.amount().scale()), (150, 2));
    assert!(back == m1);
    let zero = Money::new(dec(0, 4), "USD".to_string()).unwrap();
    let same = m1.add(&zero).unwrap();
    assert_eq!((same.amount().mantissa(), same.amount().scale()), (15, 1));
}

#[test]
fn products_beyond_the_scale_are_rounded_not_refused() {
    let price = Money::new(dec(10_000_000_000_000_000_000_000_000_000, 28), "IDR".to_string()).unwrap();
    assert!(price.can_multiply(10));
    let total = price.multiply(10).unwrap();
    assert_eq!(total.amount(), dec(10, 0));
    assert!(total.amount().scale() < 28);
    assert!(matches!(price.checked_multiply(10), Some(Ok(_))));
    let big = Money::new(dec(0xFFFF_FFFF_FFFF_FFFF_FFFF_FFFF, 0), "IDR".to_string()).unwrap();
    assert!(big.checked_multiply(2).is_none());
    assert!(big.checked_add(&big).is_none());
    assert!(matches!(big.checked_subtract(&big), Some(Ok(_))));
}

//! Money arithmetic and comparisons, and password hashing.

use validated_values::currencies::GBP;
use validated_values::currencies::JPY;
use validated_values::currencies::XXX;
use validated_values::currencies::USD;
use validated_values::finances::Currency;
use validated_values::laws::money_addition_commutes;
use validated_values::finances::Error;
use validated_values::finances::Money;
use validated_values::numeric::NumberExt;
use validated_values::password::HashedPassword;
use validated_values::password::PasswordPair;
use validated_values::source::RandomSource;

#[test]
fn money_equality_ignores_trailing_zeros() {
    // 1.0 == 1.00
    let a = Money::<USD>::new(10, 1);
    let b = Money::<USD>::new(100, 2);
    assert!(a == b);
    assert!(a != Money::<USD>::new(11, 1));
}

#[test]
fn money_orders_by_value() {
    let small = Money::<USD>::new(150, 2);  // 1.50
    let large = Money::<USD>::new(2, 0);  // 2
    assert!(small < large);
    assert!(large > small);
    assert!(small <= Money::<USD>::new(15, 1));
    assert!(small >= Money::<USD>::new(15, 1));
}

#[test]
fn money_allows_addition() {
    let a = Money::<USD>::new(150, 2);
    let b = Money::<USD>::new(250, 2);
    let sum = a.checked_add(b).expect("in range");
    assert_eq!(sum.mantissa(), 400);
    assert_eq!(sum.scale(), 2);
}

#[test]
fn money_addition_is_commutative() {
    let a = Money::<USD>::new(150, 2);
    let b = Money::<USD>::new(7, 0);
    let (first, second) = money_addition_commutes(a, b);
    let first = first.expect("in range");
    let second = second.expect("in range");
    assert!(first == second);
}

#[test]
fn adding_zeros_of_unequal_scale_commutes_as_a_value() {
    // Adding a zero keeps the other operand's scale, so the two operand
    // orders can return different representations of the same value.
    let (first, second) = money_addition_commutes(Money::<USD>::new(0, 1), Money::<USD>::new(0, 2));
    let first = first.expect("in range");
    let second = second.expect("in range");
    assert!(first == second);
}

#[test]
fn money_subtraction_needs_larger_minuend() {
    let a = Money::<USD>::new(500, 2);
    let b = Money::<USD>::new(150, 2);
    match a.checked_sub(b) {
        Some(Ok(diff)) => {
            assert_eq!(diff.mantissa(), 350);
            assert_eq!(diff.scale(), 2);
        }
        other => panic!("expected a difference, got {:?}", other),
    }
    let a = Money::<USD>::new(150, 2);
    let b = Money::<USD>::new(500, 2);
    assert_eq!(a.checked_sub(b), Some(Err(Error::NegativeAmount)));
    // Equal amounts are refused too: the difference would be zero.
    let a = Money::<USD>::new(500, 2);
    let b = Money::<USD>::new(5, 0);
    assert_eq!(a.checked_sub(b), Some(Err(Error::NegativeAmount)));
}

#[test]
fn money_allows_multiplication_and_division() {
    let two = Money::<USD>::new(2, 0);
    let three = Money::<USD>::new(3, 0);
    let product = two.checked_mul(three).expect("in range");
    assert_eq!(product.mantissa(), 6);
    assert_eq!(product.scale(), 0);
    let six = Money::<USD>::new(6, 0);
    let quotient = six.checked_div(Money::<USD>::new(2, 0)).expect("divisor nonzero");
    assert_eq!(quotient.mantissa(), 3);
    assert_eq!(quotient.scale(), 0);
}

#[test]
fn money_division_by_zero_is_refused() {
    let six = Money::<USD>::new(6, 0);
    let zero = Money::<USD>::new(0, 0);
    assert!(six.checked_div(zero).is_none());
}

#[test]
fn money_signs() {
    assert!(Money::<USD>::new(0, 2).is_zero());
    assert!(Money::<USD>::new(5, 2).is_positive());
    assert!(Money::<USD>::new(-5, 2).is_negative());
    assert!(!Money::<USD>::new(-5, 2).is_positive());
}

#[test]
fn currency_tags_know_their_names() {
    assert_eq!(USD.ticker(), "USD".to_string());
    assert_eq!(USD.name(), "United States Of America (The)".to_string());
    assert_eq!(GBP.ticker(), "GBP".to_string());
    assert_eq!(JPY.name(), "Japan".to_string());
    assert_eq!(XXX.name(), "Zz07_No_Currency".to_string());
}

#[test]
fn hashed_password_verifies_its_own_password() {
    let hashed = HashedPassword::generate("correct horse").expect("hashing succeeds");
    assert!(hashed.verify_against("correct horse"));
    assert!(!hashed.verify_against("wrong pony"));
    assert!(hashed.as_text().starts_with("$argon2"));
}

#[test]
fn arbitrary_pair_is_always_valid() {
    let mut source = RandomSource::new([21u8; 32]);
    let pair = PasswordPair::arbitrary_from(&mut source).expect("hashing succeeds");
    assert!(pair.hashed.verify_against(&pair.plain));
}

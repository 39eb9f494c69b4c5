//! The generic wrappers: masking, pairs, and numeric draws.

use std::collections::hash_map::DefaultHasher;
use std::hash::Hash;
use std::hash::Hasher;

use validated_values::compare::str_eq;
use validated_values::compare::str_le;
use validated_values::compare::ValueEq;
use validated_values::compare::ValueOrd;
use validated_values::id::Id;
use validated_values::laws::masking_preserves_cmp_operator;
use validated_values::laws::masking_preserves_eq_operator;
use validated_values::laws::masking_preserves_equality;
use validated_values::laws::masking_preserves_order;
use validated_values::numeric::between;
use validated_values::numeric::different;
use validated_values::numeric::in_order;
use validated_values::numeric::negative;
use validated_values::numeric::positive;
use validated_values::numeric::NumberExt;
use validated_values::pairs::InequalPair;
use validated_values::pairs::SortedPair;
use validated_values::sensitive::Sensitive;
use validated_values::source::RandomSource;
use validated_values::username::Username;
use validated_values::value::Generatable;
use validated_values::value::NegateArbitrary;
use validated_values::value::ValidatedValue;

fn hash_of<T: Hash>(value: &T) -> u64 {
    let mut hasher = DefaultHasher::new();
    value.hash(&mut hasher);
    hasher.finish()
}

#[test]
fn sensitive_hides_internal_representation() {
    let secret = Sensitive::new(Username::parse("hunter2x").unwrap());
    assert_eq!(secret.masked_text(), "******".to_string());
    let other = Sensitive::new(Username::parse("swordfish").unwrap());
    assert_eq!(other.masked_text(), "******".to_string());
}

#[test]
fn sensitive_preserves_equality() {
    let a = Username::parse("alice").unwrap();
    let b = Username::parse("bob").unwrap();
    let (plain, masked) = masking_preserves_equality(a.clone(), b.clone());
    assert_eq!(plain, masked);
    let (plain, masked) = masking_preserves_equality(a.clone(), a.clone());
    assert_eq!(plain, masked);
    assert!(plain);
}

#[test]
fn sensitive_preserves_order() {
    for (x, y) in [(3u64, 9u64), (9, 3), (5, 5)] {
        let inner = x.value_le(&y);
        let outer = Sensitive::new(x).value_le(&Sensitive::new(y));
        assert_eq!(inner, outer);
    }
}

#[test]
fn sensitive_preserves_comparison_operators() {
    for (x, y) in [(3u64, 9u64), (9, 3), (5, 5)] {
        assert_eq!(Sensitive::new(x) == Sensitive::new(y), x == y);
        assert_eq!(Sensitive::new(x) != Sensitive::new(y), x != y);
        assert_eq!(Sensitive::new(x) < Sensitive::new(y), x < y);
        assert_eq!(Sensitive::new(x) <= Sensitive::new(y), x <= y);
        assert_eq!(Sensitive::new(x) > Sensitive::new(y), x > y);
        assert_eq!(Sensitive::new(x) >= Sensitive::new(y), x >= y);
    }
    let (plain, masked) = masking_preserves_eq_operator(4u64, 4u64);
    assert_eq!(plain, masked);
    assert!(plain);
    let (plain, masked) = masking_preserves_cmp_operator(4u64, 9u64);
    assert_eq!(plain, masked);
    assert_eq!(plain, Some(std::cmp::Ordering::Less));
    assert_eq!(
        Sensitive::new(9u64).cmp(&Sensitive::new(3u64)),
        9u64.cmp(&3u64)
    );
}

#[test]
fn sensitive_preserves_hash() {
    let a = Sensitive::new(Username::parse("alice").unwrap());
    let b = Sensitive::new(Username::parse("alice").unwrap());
    assert_eq!(hash_of(&a), hash_of(&b));
    assert_eq!(hash_of(&a), hash_of(&Username::parse("alice").unwrap()));
}

#[test]
fn sensitive_preserves_into() {
    let wrapped: Sensitive<u64> = 42u64.into();
    assert_eq!(wrapped.get(), 42);
    let direct = Sensitive::new(7u64);
    assert_eq!(direct.get(), 7);
}

#[test]
fn sensitive_parses_like_inner() {
    let wrapped = Sensitive::<Username>::parse("alice").expect("valid inner text parses");
    assert_eq!(wrapped.get().as_text(), "alice");
    assert!(Sensitive::<Username>::parse("_alice").is_err());
}

#[test]
fn sensitive_generates_like_inner() {
    let mut one = RandomSource::new([8u8; 32]);
    let mut two = RandomSource::new([8u8; 32]);
    let inner = Username::arbitrary_from(&mut one).unwrap();
    let wrapped = Sensitive::<Username>::arbitrary_from(&mut two).unwrap();
    assert_eq!(wrapped.get(), inner);
}

#[test]
fn generates_invalid_composite_types() {
    let mut source = RandomSource::new([11u8; 32]);
    let raw = Sensitive::<Username>::negate_arbitrary(&mut source).expect("negation generates");
    assert!(Username::parse(&raw).is_err());
}

#[test]
fn inequal_pairs_differ() {
    for b in 0u8..8 {
        let mut source = RandomSource::new([b; 32]);
        let InequalPair(x, y) = InequalPair::<u64>::arbitrary_from(&mut source).expect("pairs");
        assert_ne!(x, y);
    }
}

#[test]
fn inequal_id_pairs_succeed_quickly() {
    // Over a 128-bit identifier space the second draw virtually never
    // collides, so the bounded retry budget is ample.
    for b in 0u8..8 {
        let mut source = RandomSource::new([b; 32]);
        let InequalPair(x, y) =
            InequalPair::<Id<()>>::arbitrary_from(&mut source).expect("never exhausts in practice");
        assert_ne!(x.value(), y.value());
    }
}

#[test]
fn sorted_pairs_come_high_then_low() {
    for b in 0u8..8 {
        let mut source = RandomSource::new([b; 32]);
        let SortedPair(high, low) = SortedPair::<u64>::arbitrary_from(&mut source).expect("pairs");
        assert!(high > low);
    }
}

#[test]
fn sorted_pairs_replay_from_seed() {
    let mut one = RandomSource::new([13u8; 32]);
    let mut two = RandomSource::new([13u8; 32]);
    let SortedPair(h1, l1) = SortedPair::<u64>::arbitrary_from(&mut one).unwrap();
    let SortedPair(h2, l2) = SortedPair::<u64>::arbitrary_from(&mut two).unwrap();
    assert_eq!((h1, l1), (h2, l2));
    // Swapping the direction gives the same two values, consistently.
    let mut three = RandomSource::new([13u8; 32]);
    let (lo, hi) = in_order::<u64>(&mut three).unwrap();
    assert_eq!((hi, lo), (h1, l1));
}

#[test]
fn different_pairs_differ() {
    let mut source = RandomSource::new([14u8; 32]);
    let InequalPair(x, y) = different::<u64>(&mut source).expect("pairs");
    assert_ne!(x, y);
}

#[test]
fn positive_and_negative_draws_have_their_sign() {
    let mut source = RandomSource::new([15u8; 32]);
    let p: i64 = positive(&mut source).expect("finds a positive value");
    assert!(p.is_positive() && p > 0);
    let n: i64 = negative(&mut source).expect("finds a negative value");
    assert!(n.is_negative() && n < 0);
}

#[test]
fn between_stays_in_range() {
    let mut source = RandomSource::new([16u8; 32]);
    for _ in 0..16 {
        let v = between(&mut source, 10, 20);
        assert!((10..20).contains(&v));
    }
}

#[test]
fn sensitive_order_law_on_values() {
    let (plain, masked) = masking_preserves_order(3u64, 9u64);
    assert_eq!(plain, masked);
    assert!(plain);
    let (plain, masked) = masking_preserves_order(9u64, 3u64);
    assert_eq!(plain, masked);
    assert!(!plain);
}

#[test]
fn sorted_username_pairs_are_ordered() {
    let mut source = RandomSource::new([17u8; 32]);
    let SortedPair(high, low) =
        SortedPair::<Username>::arbitrary_from(&mut source).expect("pairs");
    assert!(str_le(low.as_text(), high.as_text()));
    assert_ne!(high.as_text(), low.as_text());
}

#[test]
fn string_order_is_lexicographic() {
    assert!(str_le("abc", "abd"));
    assert!(!str_le("abd", "abc"));
    assert!(str_le("ab", "abc"));
    assert!(!str_le("abc", "ab"));
    assert!(str_le("", "a"));
    assert!(str_le("same", "same"));
}

#[test]
fn number_predicates_cover_all_widths() {
    assert!(0u8.is_zero() && !0u8.is_positive() && !0u8.is_negative());
    assert!(3u16.is_positive());
    assert!(7u32.is_positive() && !7u32.is_negative());
    assert!((-4i8).is_negative());
    assert!((-4i16).is_negative() && !(-4i16).is_positive());
    assert!(5i32.is_positive());
    assert!((-9i128).is_negative());
    assert!(2isize.is_positive() && !0isize.is_positive());
}

#[test]
fn string_equality_is_exact() {
    assert!(str_eq("abc", "abc"));
    assert!(!str_eq("abc", "abd"));
    assert!(!str_eq("abc", "abcd"));
    assert!(str_eq("", ""));
}

//! The framework's laws, proved once and for all over the capability
//! interfaces. Each function returns what it observed, with an `ensures`
//! that pins the observation for every seed and every type with the named
//! capability.

use vstd::prelude::*;

use crate::compare::str_eq;
use crate::compare::ValueEq;
use crate::compare::ValueOrd;
use crate::finances::dec_add_of;
use crate::finances::dec_eq;
use crate::finances::Money;
use crate::invalid::Invalid;
use crate::sensitive::Sensitive;
use crate::session::PropTest;
use crate::source::RandomSource;
use crate::value::matches_arb_model;
use crate::value::matches_text_model;
use crate::value::GenError;
use crate::value::Generatable;
use crate::value::GeneratableValue;
use crate::value::NegateArbitrary;
use crate::value::StrictNegate;
use crate::value::ValidatedValue;
use crate::Error;

verus! {

/// Two generation outcomes that agree: equal abstract content on success,
/// the same error on failure.
pub open spec fn same_outcome<T: View>(a: Result<T, GenError>, b: Result<T, GenError>) -> bool {
    match (a, b) {
        (Ok(x), Ok(y)) => x@ == y@,
        (Err(x), Err(y)) => x == y,
        _ => false,
    }
}

/// Every generated valid value survives a round trip through validation:
/// whenever generation succeeds, the rendered text parses again — so
/// every text the generator's model can produce is a valid text of the
/// domain.
pub fn arbitrary_round_trips<T: GeneratableValue>(source: &mut RandomSource) -> (ok: bool)
    ensures
        ok,
        final(source).seed() == old(source).seed(),
        T::arb_model(old(source).seed(), old(source).pos()).0 matches Ok(mv) ==> T::valid_text(
            T::model_text(mv),
        ),
{
    match T::arbitrary_from(source) {
        Err(_) => true,
        Ok(v) => {
            proof {
                T::generated_is_valid(&v);
            }
            let text = v.render();
            match T::parse(text.as_str()) {
                Ok(_) => true,
                Err(_) => false,
            }
        },
    }
}

/// Every negated text fails its domain's validator, and fails with the
/// domain's own tag and that very text — so every text the negation
/// model can produce is outside the domain.
pub fn negated_always_fails<T: StrictNegate>(source: &mut RandomSource) -> (ok: bool)
    ensures
        ok,
        final(source).seed() == old(source).seed(),
        T::neg_model(old(source).seed(), old(source).pos()).0 matches Ok(t) ==> !T::valid_text(t),
{
    match T::negate_arbitrary(source) {
        Err(_) => true,
        Ok(s) => {
            proof {
                T::negated_is_invalid(s@);
            }
            match T::parse(s.as_str()) {
                Ok(_) => false,
                Err(e) => match e {
                    Error::FailedParsing(k, raw) => {
                        let expected = T::kind();
                        k == expected && str_eq(raw.as_str(), s.as_str())
                    },
                    Error::PasswordHashing(_) => false,
                },
            }
        },
    }
}

/// Negation is an involution at the type level: negating the negation
/// wrapper draws a valid inner value, so its text parses as the inner
/// type — every text that doubled negation's model can produce is a
/// valid text of the inner domain.
pub fn double_negation_succeeds<T: GeneratableValue>(source: &mut RandomSource) -> (ok: bool)
    ensures
        ok,
        final(source).seed() == old(source).seed(),
        <Invalid<T> as NegateArbitrary>::neg_model(old(source).seed(), old(source).pos()).0
            matches Ok(t) ==> T::valid_text(t),
{
    match <Invalid<T> as NegateArbitrary>::negate_arbitrary(source) {
        Err(_) => true,
        Ok(s) => match T::parse(s.as_str()) {
            Ok(_) => true,
            Err(_) => false,
        },
    }
}

/// Generation is deterministic: two draws from equally seeded sources
/// produce the same outcome.
pub fn generation_is_deterministic<T: Generatable>(seed: [u8; 32]) -> (r: (
    Result<T, GenError>,
    Result<T, GenError>,
))
    ensures
        same_outcome(r.0, r.1),
        matches_arb_model(r.0, T::arb_model(seed@, 0).0),
        matches_arb_model(r.1, T::arb_model(seed@, 0).0),
{
    let mut first_source = RandomSource::new(seed);
    let first = T::arbitrary_from(&mut first_source);
    let mut second_source = RandomSource::new(seed);
    let second = T::arbitrary_from(&mut second_source);
    (first, second)
}

/// Negation is deterministic in the same way.
pub fn negation_is_deterministic<T: NegateArbitrary>(seed: [u8; 32]) -> (r: (
    Result<String, GenError>,
    Result<String, GenError>,
))
    ensures
        same_outcome(r.0, r.1),
        matches_text_model(r.0, T::neg_model(seed@, 0).0),
        matches_text_model(r.1, T::neg_model(seed@, 0).0),
{
    let mut first_source = RandomSource::new(seed);
    let first = T::negate_arbitrary(&mut first_source);
    let mut second_source = RandomSource::new(seed);
    let second = T::negate_arbitrary(&mut second_source);
    (first, second)
}

/// A session replays its seed: two sessions over the same seed and the
/// same generator produce the same outcome.
pub fn session_is_deterministic<T: Generatable>(seed: [u8; 32]) -> (r: (
    Result<T, GenError>,
    Result<T, GenError>,
))
    ensures
        same_outcome(r.0, r.1),
        matches_arb_model(r.0, T::arb_model(seed@, 0).0),
        matches_arb_model(r.1, T::arb_model(seed@, 0).0),
{
    let first = PropTest::<T>::new(seed).get();
    let second = PropTest::<T>::new(seed).get();
    (first, second)
}

/// Masking preserves equality: wrapped values compare exactly as the
/// inner values do.
pub fn masking_preserves_equality<T: ValueEq>(a: T, b: T) -> (r: (bool, bool))
    ensures
        r.0 == r.1,
        r.0 == (a@ == b@),
{
    let plain = a.value_eq(&b);
    let masked_a = Sensitive::new(a);
    let masked_b = Sensitive::new(b);
    proof {
        masked_a.lemma_view_is_inner();
        masked_b.lemma_view_is_inner();
    }
    let masked = masked_a.value_eq(&masked_b);
    (plain, masked)
}

/// Masking preserves ordering: wrapped values order exactly as the inner
/// values do.
pub fn masking_preserves_order<T: ValueOrd>(a: T, b: T) -> (r: (bool, bool))
    ensures
        r.0 == r.1,
        r.0 == T::le_view(a@, b@),
{
    let plain = a.value_le(&b);
    let masked_a = Sensitive::new(a);
    let masked_b = Sensitive::new(b);
    proof {
        masked_a.lemma_view_is_inner();
        masked_b.lemma_view_is_inner();
    }
    let masked = masked_a.value_le(&masked_b);
    (plain, masked)
}

/// Masking preserves the equality operator: whenever the inner type's
/// `==` obeys its specification, the wrapped and plain comparisons agree,
/// and both decide the inner equality specification.
pub fn masking_preserves_eq_operator<T: PartialEq>(a: T, b: T) -> (r: (bool, bool))
    ensures
        <T as vstd::std_specs::cmp::PartialEqSpec>::obeys_eq_spec() ==> (r.0 == r.1 && r.0 == <
        T as vstd::std_specs::cmp::PartialEqSpec>::eq_spec(&a, &b)),
{
    let plain = a.eq(&b);
    let masked_a = Sensitive::new(a);
    let masked_b = Sensitive::new(b);
    let masked = masked_a.eq(&masked_b);
    (plain, masked)
}

/// Masking preserves the comparison operator: whenever the inner type's
/// `partial_cmp` obeys its specification, the wrapped and plain
/// comparisons agree, and both decide the inner ordering specification
/// (so `<`, `<=`, `>`, `>=` on the wrapper agree with the inner type's).
pub fn masking_preserves_cmp_operator<T: PartialOrd>(a: T, b: T) -> (r: (
    Option<core::cmp::Ordering>,
    Option<core::cmp::Ordering>,
))
    ensures
        <T as vstd::std_specs::cmp::PartialOrdSpec>::obeys_partial_cmp_spec() ==> (r.0 == r.1
            && r.0 == <T as vstd::std_specs::cmp::PartialOrdSpec>::partial_cmp_spec(&a, &b)),
{
    let plain = a.partial_cmp(&b);
    let masked_a = Sensitive::new(a);
    let masked_b = Sensitive::new(b);
    let masked = masked_a.partial_cmp(&masked_b);
    (plain, masked)
}

/// Money addition is commutative as a value: the two operand orders
/// succeed together, each outcome is its own named checked sum, and the
/// two sums are equal decimals. Their representations can differ (adding
/// a zero keeps the other operand's scale), so value equality is what is
/// claimed.
pub fn money_addition_commutes<C: Default + Clone>(a: Money<C>, b: Money<C>) -> (r: (
    Option<Money<C>>,
    Option<Money<C>>,
))
    ensures
        (match (r.0, dec_add_of(a.m_spec(), a.s_spec(), b.m_spec(), b.s_spec())) {
            (Some(x), Some(v)) => x.m_spec() == v.0 && x.s_spec() == v.1,
            (None, None) => true,
            _ => false,
        }),
        (match (r.1, dec_add_of(b.m_spec(), b.s_spec(), a.m_spec(), a.s_spec())) {
            (Some(x), Some(v)) => x.m_spec() == v.0 && x.s_spec() == v.1,
            (None, None) => true,
            _ => false,
        }),
        (match (r.0, r.1) {
            (Some(x), Some(y)) => dec_eq(x.m_spec(), x.s_spec(), y.m_spec(), y.s_spec()),
            (None, None) => true,
            _ => false,
        }),
{
    let first = a.clone().checked_add(b.clone());
    let second = b.checked_add(a);
    (first, second)
}

} // verus!

//! A container for sensitive data, such as passwords or credentials. It
//! preserves the inner value's equality and ordering, but its textual form
//! is always a fixed mask, never the inner value.

use vstd::prelude::*;

use crate::compare::ValueEq;
use crate::compare::ValueOrd;
use crate::source::RandomSource;
use crate::value::GenError;
use crate::value::Generatable;
use crate::value::NegateArbitrary;
use crate::value::ValidatedValue;
use crate::Error;

verus! {

/// The fixed mask every sensitive value renders as.
pub open spec fn mask_text() -> Seq<char> {
    "******"@
}

/// A container that blocks its payload from being printed. It has no
/// debug or display rendering at all: the only textual form it offers is
/// the fixed mask of [`Sensitive::masked_text`], so no formatting path
/// can leak the payload. The derived total order compares the single
/// field, so it delegates to the inner type's own order.
#[derive(Clone, Hash, Ord)]
pub struct Sensitive<T> {
    value: T,
}

impl<T: PartialEq> PartialEq for Sensitive<T> {
    fn eq(&self, other: &Self) -> (r: bool) {
        self.value.eq(&other.value)
    }
}

impl<T: PartialEq> vstd::std_specs::cmp::PartialEqSpecImpl for Sensitive<T> {
    open spec fn obeys_eq_spec() -> bool {
        <T as vstd::std_specs::cmp::PartialEqSpec>::obeys_eq_spec()
    }

    open spec fn eq_spec(&self, other: &Self) -> bool {
        <T as vstd::std_specs::cmp::PartialEqSpec>::eq_spec(&self.inner(), &other.inner())
    }
}

impl<T: Eq> Eq for Sensitive<T> {

}

impl<T: PartialOrd> PartialOrd for Sensitive<T> {
    fn partial_cmp(&self, other: &Self) -> (r: Option<core::cmp::Ordering>) {
        self.value.partial_cmp(&other.value)
    }
}

impl<T: PartialOrd> vstd::std_specs::cmp::PartialOrdSpecImpl for Sensitive<T> {
    open spec fn obeys_partial_cmp_spec() -> bool {
        <T as vstd::std_specs::cmp::PartialOrdSpec>::obeys_partial_cmp_spec()
    }

    open spec fn partial_cmp_spec(&self, other: &Self) -> Option<core::cmp::Ordering> {
        <T as vstd::std_specs::cmp::PartialOrdSpec>::partial_cmp_spec(&self.inner(), &other.inner())
    }
}

impl<T: View> View for Sensitive<T> {
    type V = T::V;

    closed spec fn view(&self) -> T::V {
        self.value@
    }
}

impl<T> Sensitive<T> {
    /// The wrapped value, as the contracts speak of it.
    pub closed spec fn inner(&self) -> T {
        self.value
    }

    pub fn new(value: T) -> (r: Self)
        ensures
            r.inner() == value,
    {
        Sensitive { value }
    }

    /// Unwrap the sensitive value deliberately.
    pub fn get(self) -> (r: T)
        ensures
            r == self.inner(),
    {
        self.value
    }

    /// The masked textual form: always the fixed mask, never the inner
    /// value.
    pub fn masked_text(&self) -> (r: String)
        ensures
            r@ == mask_text(),
    {
        String::from_str("******")
    }
}

impl<T: View> Sensitive<T> {
    /// The wrapper holds exactly its inner value's abstract content.
    pub proof fn lemma_view_is_inner(&self)
        ensures
            self@ == self.inner()@,
    {
    }
}

impl<T: ValidatedValue> Sensitive<T> {
    /// Parse the inner type and wrap it: accepts exactly the inner
    /// domain's valid texts.
    pub fn parse(s: &str) -> (r: Result<Self, Error>)
        ensures
            r is Ok <==> T::valid_text(s@),
            r matches Ok(v) ==> T::valid_text(v.inner().text_of()),
            r matches Err(e) ==> (e matches Error::FailedParsing(k, raw) && k == T::kind_spec()
                && raw@ == s@),
    {
        match T::parse(s) {
            Ok(t) => Ok(Sensitive { value: t }),
            Err(e) => Err(e),
        }
    }
}

impl<T> From<T> for Sensitive<T> {
    fn from(t: T) -> (r: Self) {
        Sensitive { value: t }
    }
}

impl<T> vstd::std_specs::convert::FromSpecImpl<T> for Sensitive<T> {
    open spec fn obeys_from_spec() -> bool {
        true
    }

    closed spec fn from_spec(t: T) -> Self {
        Sensitive { value: t }
    }
}

impl<T> Sensitive<T> {
    /// Conversion from the inner type wraps the value, exactly as `new`
    /// does.
    pub proof fn lemma_from_is_new(t: T)
        ensures
            <Sensitive<T> as vstd::std_specs::convert::FromSpec<T>>::from_spec(t).inner() == t,
    {
    }
}

impl<T: ValueEq> ValueEq for Sensitive<T> {
    fn value_eq(&self, other: &Self) -> (r: bool) {
        self.value.value_eq(&other.value)
    }
}

impl<T: ValueOrd> ValueOrd for Sensitive<T> {
    open spec fn le_view(a: T::V, b: T::V) -> bool {
        T::le_view(a, b)
    }

    proof fn le_view_total(a: T::V, b: T::V) {
        T::le_view_total(a, b);
    }

    fn value_le(&self, other: &Self) -> (r: bool) {
        self.value.value_le(&other.value)
    }
}

impl<T: Generatable> Generatable for Sensitive<T> {
    open spec fn arb_model(seed: Seq<u8>, pos: int) -> (Result<T::V, GenError>, int) {
        T::arb_model(seed, pos)
    }

    open spec fn gen_ok(&self) -> bool {
        self.inner().gen_ok()
    }

    fn arbitrary_from(source: &mut RandomSource) -> (r: Result<Self, GenError>) {
        match T::arbitrary_from(source) {
            Ok(t) => Ok(Sensitive { value: t }),
            Err(e) => Err(e),
        }
    }
}

impl<T: NegateArbitrary> NegateArbitrary for Sensitive<T> {
    open spec fn neg_model(seed: Seq<u8>, pos: int) -> (Result<Seq<char>, GenError>, int) {
        T::neg_model(seed, pos)
    }

    open spec fn neg_guarantee(s: Seq<char>) -> bool {
        T::neg_guarantee(s)
    }

    fn negate_arbitrary(source: &mut RandomSource) -> (r: Result<String, GenError>) {
        T::negate_arbitrary(source)
    }
}

} // verus!

//! A unique identifier for a resource, tagged at the type level with the
//! resource it points to so that identifiers of different resources cannot
//! be mixed up. The identifier is a 128-bit value; its textual form and the
//! parsing of that form are the uuid crate's, named and relied on through
//! trusted declarations.

use core::marker::PhantomData;
use vstd::prelude::*;

use crate::source::rng_block;
use crate::source::wide_of;
use crate::source::RandomSource;
use crate::value::GenError;
use crate::value::Generatable;
use crate::value::GeneratableValue;
use crate::value::ValidatedValue;
use crate::Error;
use crate::Kind;

verus! {

/// The 128-bit value a uuid text denotes, in any of the formats the uuid
/// crate's parser accepts, or `None` when the text is not a uuid. The
/// parser is a pure function of the string.
pub uninterp spec fn uuid_of_text(s: Seq<char>) -> Option<u128>;

/// The canonical (hyphenated, lower-case) text of the 128-bit value `v`, as
/// the uuid crate renders it: a pure function of `v`.
pub uninterp spec fn uuid_text(v: u128) -> Seq<char>;

/// Relies on `uuid::Uuid::parse_str` and `Uuid::as_u128`: the value of a
/// uuid text. A parsed value's canonical text parses back to the value, as
/// the crate documents for its renderer and parser.
#[verifier::external_body]
fn uuid_parse_raw(s: &str) -> (r: Option<u128>)
    ensures
        r == uuid_of_text(s@),
        r matches Some(v) ==> uuid_of_text(uuid_text(v)) == Some(v),
{
    match uuid::Uuid::parse_str(s) {
        Ok(u) => Some(u.as_u128()),
        Err(_) => None,
    }
}

/// Relies on `uuid::Uuid::from_u128` and the uuid `Display`: the canonical
/// hyphenated text of the value, which the crate's parser accepts and maps
/// back to the value.
#[verifier::external_body]
fn uuid_render_raw(v: u128) -> (r: String)
    ensures
        r@ == uuid_text(v),
        uuid_of_text(r@) == Some(v),
{
    uuid::Uuid::from_u128(v).to_string()
}

/// A unique id pointing to a resource of type `T`.
#[derive(Debug, Copy, PartialEq, Eq, Hash)]
pub struct Id<T> {
    value: u128,
    marker: PhantomData<T>,
}

impl<T> Clone for Id<T> {
    fn clone(&self) -> (r: Self)
        ensures
            r == *self,
    {
        Id { value: self.value, marker: PhantomData }
    }
}

impl<T> View for Id<T> {
    type V = u128;

    closed spec fn view(&self) -> u128 {
        self.value
    }
}

impl<T> Id<T> {
    /// The identifier built from a raw 128-bit value.
    pub fn from_u128(v: u128) -> (r: Id<T>)
        ensures
            r@ == v,
    {
        Id { value: v, marker: PhantomData }
    }

    /// The identifier's raw 128-bit value.
    pub fn value(&self) -> (r: u128)
        ensures
            r == self@,
    {
        self.value
    }
}

impl<T> ValidatedValue for Id<T> {
    open spec fn valid_text(s: Seq<char>) -> bool {
        uuid_of_text(s) is Some
    }

    open spec fn kind_spec() -> Kind {
        Kind::Id
    }

    open spec fn text_of(&self) -> Seq<char> {
        uuid_text(self@)
    }

    fn kind() -> (r: Kind) {
        Kind::Id
    }

    fn parse(s: &str) -> (r: Result<Self, Error>)
        ensures
            r matches Ok(v) ==> uuid_of_text(s@) == Some(v@),
            r matches Ok(v) ==> uuid_of_text(uuid_text(v@)) == Some(v@),
    {
        match uuid_parse_raw(s) {
            Some(v) => Ok(Id { value: v, marker: PhantomData }),
            None => Err(Error::FailedParsing(Kind::Id, s.to_owned())),
        }
    }

    fn render(&self) -> (r: String) {
        uuid_render_raw(self.value)
    }
}

impl<T> Generatable for Id<T> {
    open spec fn arb_model(seed: Seq<u8>, pos: int) -> (Result<u128, GenError>, int) {
        (Ok(wide_of(rng_block(seed, pos))), pos + 1)
    }

    open spec fn gen_ok(&self) -> bool {
        uuid_of_text(uuid_text(self@)) == Some(self@)
    }

    fn arbitrary_from(source: &mut RandomSource) -> (r: Result<Self, GenError>) {
        let v = source.next_u128();
        // Rendering once establishes that the canonical text of the drawn
        // value parses back to it, which is what downstream round-trip
        // reasoning needs of a generated identifier.
        let _canonical = uuid_render_raw(v);
        Ok(Id { value: v, marker: PhantomData })
    }
}

impl<T> GeneratableValue for Id<T> {
    open spec fn model_text(v: u128) -> Seq<char> {
        uuid_text(v)
    }

    proof fn generated_is_valid(v: &Self) {
    }
}

} // verus!

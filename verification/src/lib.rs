//! Validated value types (email addresses, usernames, free text, opaque
//! identifiers) together with a deterministic framework that generates both
//! valid and deliberately invalid random instances of them for property
//! testing.

use vstd::prelude::*;

pub mod compare;
pub mod currencies;
pub mod email;
pub mod finances;
pub mod invalid;
pub mod id;
pub mod laws;
pub mod numeric;
pub mod pairs;
pub mod password;
pub mod sensitive;
pub mod session;
pub mod source;
pub mod strutil;
pub mod text;
pub mod username;
pub mod value;

verus! {

/// The domains of validated values this crate offers.
#[derive(Debug, Clone, Copy, PartialEq, Eq, Hash, Structural)]
pub enum Kind {
    Email,
    Username,
    Id,
    Text,
}

impl Kind {
    /// The lower-case name of the domain, as used in error messages.
    pub fn as_text(&self) -> (r: String)
        ensures
            r@ == self.text_spec(),
    {
        match self {
            Kind::Email => String::from_str("email"),
            Kind::Username => String::from_str("username"),
            Kind::Id => String::from_str("id"),
            Kind::Text => String::from_str("text"),
        }
    }

    pub open spec fn text_spec(&self) -> Seq<char> {
        match self {
            Kind::Email => "email"@,
            Kind::Username => "username"@,
            Kind::Id => "id"@,
            Kind::Text => "text"@,
        }
    }
}

/// The errors a validated value can produce.
#[derive(Debug, Clone, PartialEq, Eq)]
pub enum Error {
    /// The raw input was rejected by the named domain's validator; holds the
    /// rejecting domain and the raw input.
    FailedParsing(Kind, String),
    /// Hashing a password failed; holds the hasher's message.
    PasswordHashing(String),
}

} // verus!

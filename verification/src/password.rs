//! Password hashing. The hash is produced with a random salt, so nothing
//! deterministic can be said of its text; what is stated instead holds of
//! every outcome: a produced hash is well-formed and verifies against the
//! password it was made from.

use vstd::prelude::*;

use crate::source::rng_block;
use crate::source::word_of;
use crate::source::RandomSource;
use crate::strutil::printable_text_of;
use crate::Error;

verus! {

/// Whether a text is a well-formed password hash (one the hash parser
/// accepts): a pure function of the text.
pub uninterp spec fn phc_hash(s: Seq<char>) -> bool;

/// The verifier's verdict for a hash text and a password: the hash is
/// recomputed from the password with the salt and parameters carried by
/// the hash text, so this is a pure function of the two texts.
pub uninterp spec fn argon2_matches(hash: Seq<char>, password: Seq<char>) -> bool;

/// Relies on argon2's `PasswordHasher::hash_password` with a fresh random
/// salt: every produced hash is in the parseable hash format and verifies
/// against the hashed password.
#[verifier::external_body]
fn argon2_hash_raw(password: &str) -> (r: Result<String, String>)
    ensures
        r matches Ok(h) ==> phc_hash(h@) && argon2_matches(h@, password@),
{
    let argon = argon2::Argon2::default();
    let salt = argon2::password_hash::SaltString::generate(&mut rand::rngs::OsRng);
    match argon2::PasswordHasher::hash_password(&argon, password.as_bytes(), &salt) {
        Ok(h) => Ok(h.to_string()),
        Err(e) => Err(e.to_string()),
    }
}

/// Relies on argon2's `PasswordVerifier::verify_password` over a parsed
/// hash: whether the password matches the hash.
#[verifier::external_body]
fn argon2_verify_raw(hash: &str, password: &str) -> (r: bool)
    requires
        phc_hash(hash@),
    ensures
        r == argon2_matches(hash@, password@),
{
    let parsed = match argon2::password_hash::PasswordHash::new(hash) {
        Ok(p) => p,
        Err(_) => return false,
    };
    argon2::PasswordVerifier::verify_password(
        &argon2::Argon2::default(),
        password.as_bytes(),
        &parsed,
    ).is_ok()
}

/// A password hash in the standard textual hash format.
#[derive(Debug)]
pub struct HashedPassword {
    hash: String,
}

impl HashedPassword {
    /// The hash's text, as the contracts speak of it.
    pub closed spec fn hash_text(&self) -> Seq<char> {
        self.hash@
    }

    #[verifier::type_invariant]
    closed spec fn well_formed(&self) -> bool {
        phc_hash(self.hash@)
    }

    /// Hash a password with a fresh random salt. The produced hash
    /// verifies against the password it was made from.
    pub fn generate(password: &str) -> (r: Result<HashedPassword, Error>)
        ensures
            r matches Ok(h) ==> argon2_matches(h.hash_text(), password@),
            r matches Err(e) ==> e matches Error::PasswordHashing(_),
    {
        match argon2_hash_raw(password) {
            Ok(h) => Ok(HashedPassword { hash: h }),
            Err(m) => Err(Error::PasswordHashing(m)),
        }
    }

    /// Whether `other` is the password this hash was made from.
    pub fn verify_against(&self, other: &str) -> (r: bool)
        ensures
            r == argon2_matches(self.hash_text(), other@),
    {
        proof {
            use_type_invariant(self);
        }
        argon2_verify_raw(self.hash.as_str(), other)
    }

    /// The hash's textual form.
    pub fn as_text(&self) -> (r: &str)
        ensures
            r@ == self.hash_text(),
    {
        self.hash.as_str()
    }
}

/// A plain password together with its hash.
#[derive(Debug)]
pub struct PasswordPair {
    pub plain: String,
    pub hashed: HashedPassword,
}

impl PasswordPair {
    /// Draw a plain password from the stream and hash it: the plain text
    /// is exactly the printable draw of the stream's next two blocks, and
    /// the pair's hash always verifies against it.
    pub fn arbitrary_from(source: &mut RandomSource) -> (r: Result<PasswordPair, Error>)
        ensures
            final(source).seed() == old(source).seed(),
            final(source).pos() == old(source).pos() + 2,
            r matches Ok(p) ==> p.plain@ == printable_text_of(
                rng_block(old(source).seed(), old(source).pos() + 1),
                (word_of(rng_block(old(source).seed(), old(source).pos())) % 28 + 4) as int,
            ),
            r matches Ok(p) ==> argon2_matches(p.hashed.hash_text(), p.plain@),
            r matches Err(e) ==> e matches Error::PasswordHashing(_),
    {
        let len = source.next_below(28) as usize + 4;
        let plain = source.next_printable_text(len);
        match HashedPassword::generate(plain.as_str()) {
            Ok(h) => Ok(PasswordPair { plain, hashed: h }),
            Err(e) => Err(e),
        }
    }
}

} // verus!

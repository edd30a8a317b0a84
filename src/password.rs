use vstd::prelude::*;

verus! {

/// What bcrypt's verification makes of a plaintext against a stored hash:
/// `Some(true)` on a match, `Some(false)` on a mismatch, `None` when the hash
/// cannot be read.
pub uninterp spec fn bcrypt_verify_of(plaintext: Seq<char>, hash: Seq<char>) -> Option<bool>;

/// Relies on `bcrypt::verify`: the salt and cost sit in the hash, so the
/// verdict depends on the two strings alone.
#[verifier::external_body]
fn bcrypt_verdict(plaintext: &str, hash: &str) -> (r: Option<bool>)
    ensures
        r == bcrypt_verify_of(plaintext@, hash@),
{
    bcrypt::verify(plaintext, hash).ok()
}

/// Whether `plaintext` is the password that `hash` was made from. A hash that
/// cannot be read counts as a mismatch.
pub open spec fn password_matches(plaintext: Seq<char>, hash: Seq<char>) -> bool {
    bcrypt_verify_of(plaintext, hash) == Some(true)
}

/// Checks a plaintext password against a stored bcrypt hash.
pub fn verify_password(plaintext: &str, hash: &str) -> (r: bool)
    ensures
        r == password_matches(plaintext@, hash@),
{
    match bcrypt_verdict(plaintext, hash) {
        Some(ok) => ok,
        None => false,
    }
}

} // verus!

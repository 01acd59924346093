//! Password verification against stored adaptive-hash digests.
//!
//! A stored credential is a bcrypt digest: it embeds a version tag, a cost
//! factor and a salt. Verification recomputes the hash of a submitted
//! plaintext under the embedded salt and cost and compares the outcome.

use vstd::prelude::*;

verus! {

/// Whether `h` is a well-formed bcrypt digest: the exact set of strings that
/// `bcrypt::verify` accepts as its stored hash.
pub uninterp spec fn bcrypt_valid_hash(h: Seq<char>) -> bool;

/// Whether plaintext `pass` matches the well-formed digest `h`: the boolean
/// that `bcrypt::verify` computes, a function of the two texts alone.
pub uninterp spec fn bcrypt_matches(pass: Seq<char>, h: Seq<char>) -> bool;

/// Verification can fail only because the stored digest is malformed.
#[derive(Clone, Copy, Debug, PartialEq, Eq, Structural)]
pub enum VerifyError {
    MalformedHash,
}

/// Relies on bcrypt::verify (bcrypt 0.19): it returns Ok exactly when the
/// stored hash splits as a bcrypt digest (60 ASCII bytes, "$2_$cc$" prefix
/// with a cost the scheme allows), and the boolean it returns is computed
/// from the password bytes and the digest alone, so it is the same on every
/// call with the same arguments. It never panics: its own guards reject
/// malformed digests before hashing.
#[verifier::external_body]
fn bcrypt_verify(password: &str, hash: &str) -> (r: Result<bool, VerifyError>)
    ensures
        (r is Ok) == bcrypt_valid_hash(hash@),
        r matches Ok(b) ==> b == bcrypt_matches(password@, hash@),
{
    match bcrypt::verify(password, hash) {
        Ok(b) => Ok(b),
        Err(_) => Err(VerifyError::MalformedHash),
    }
}

/// Relies on bcrypt::hash (bcrypt 0.19): with a cost the scheme allows it
/// draws a fresh random salt, and on success returns a well-formed digest
/// that bcrypt::verify accepts and matches against the same password. The
/// outcome depends on the drawn salt, so nothing more is stated of it.
#[verifier::external_body]
fn bcrypt_hash(password: &str, cost: u32) -> (r: Option<String>)
    requires
        4 <= cost <= 31,
    ensures
        r matches Some(h) ==> bcrypt_valid_hash(h@) && bcrypt_matches(password@, h@),
{
    bcrypt::hash(password, cost).ok()
}

/// The fixed minimum cost factor used when provisioning a credential.
pub const PROVISION_COST: u32 = 12;

/// Compares a submitted plaintext against a stored digest.
///
/// Returns `Ok(true)` exactly when the plaintext matches, `Ok(false)` when
/// the digest is well formed but the plaintext does not match, and
/// `Err(MalformedHash)` exactly when the stored digest is malformed.
pub fn verify_password(password: &String, stored_hash: &String) -> (r: Result<
    bool,
    VerifyError,
>)
    ensures
        (r is Ok) == bcrypt_valid_hash(stored_hash@),
        r matches Ok(b) ==> b == bcrypt_matches(password@, stored_hash@),
        r matches Err(e) ==> e == VerifyError::MalformedHash,
{
    bcrypt_verify(password.as_str(), stored_hash.as_str())
}

/// Hashes a plaintext for provisioning, at the fixed cost with a fresh
/// random salt. On success the digest is well formed and matches the
/// plaintext; `None` reports a failure of the hashing scheme itself.
pub fn hash_password(password: &String) -> (r: Option<String>)
    ensures
        r matches Some(h) ==> bcrypt_valid_hash(h@) && bcrypt_matches(password@, h@),
{
    bcrypt_hash(password.as_str(), PROVISION_COST)
}

} // verus!

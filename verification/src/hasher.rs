//! One-way hashing of passwords and the check of a password against a stored
//! digest. Both are done by the `bcrypt` crate; this module states what the
//! rest of the library relies on.

use vstd::prelude::*;

verus! {

/// `bcrypt::BcryptError`, read only for the text it displays as.
#[verifier::external_type_specification]
#[verifier::external_body]
pub struct ExBcryptError(bcrypt::BcryptError);

/// What `bcrypt::verify` returns for a password and a digest: whether the
/// digest is one of that password, or `None` where it returns an error (the
/// digest is not in the shape of a bcrypt hash).
pub uninterp spec fn bcrypt_verify_spec(password: Seq<char>, digest: Seq<char>) -> Option<bool>;

/// Whether a digest is accepted for a password.
pub open spec fn digest_accepts(digest: Seq<char>, password: Seq<char>) -> bool {
    bcrypt_verify_spec(password, digest) == Some(true)
}

/// Calls `bcrypt::hash` with the crate's default cost. The salt is random, so
/// two calls on one password differ; what holds of every digest it returns is
/// that `bcrypt::verify` accepts it for the same password: `verify` reads
/// cost and salt back from the digest and repeats the computation.
#[verifier::external_body]
fn bcrypt_hash(password: &str) -> (res: Result<String, bcrypt::BcryptError>)
    ensures
        res matches Ok(digest) ==> digest_accepts(digest@, password@),
{
    bcrypt::hash(password, bcrypt::DEFAULT_COST)
}

/// Calls `bcrypt::verify`, which depends on its two arguments alone.
#[verifier::external_body]
fn bcrypt_verify(password: &str, digest: &str) -> (res: Result<bool, bcrypt::BcryptError>)
    ensures
        match res {
            Ok(accepted) => bcrypt_verify_spec(password@, digest@) == Some(accepted),
            Err(_) => bcrypt_verify_spec(password@, digest@) is None,
        },
{
    bcrypt::verify(password, digest)
}

/// Hashing failed inside the hasher; it never fails for the shape of the
/// password.
#[derive(Debug)]
pub struct HashingError {
    pub detail: String,
}

/// The digest is not one that the hasher can check a password against.
#[derive(Debug)]
pub struct VerificationError {
    pub detail: String,
}

/// Hashes a password for storage. The work is deliberately slow: a caller on a
/// cooperative runtime hands it to a thread that may block.
///
/// Every digest that comes back is accepted by `verify_password` for the same
/// password.
pub fn hash_password(plaintext: &str) -> (res: Result<String, HashingError>)
    ensures
        res matches Ok(digest) ==> digest_accepts(digest@, plaintext@),
{
    match bcrypt_hash(plaintext) {
        Ok(digest) => Ok(digest),
        Err(error) => Err(HashingError { detail: error.to_string() }),
    }
}

/// Checks a password against a stored digest: `Ok(true)` where the digest is
/// one of this password, `Ok(false)` where it is one of another password, and
/// an error exactly where the digest is not in the shape of a hash.
pub fn verify_password(plaintext: &str, digest: &str) -> (res: Result<bool, VerificationError>)
    ensures
        match res {
            Ok(accepted) => bcrypt_verify_spec(plaintext@, digest@) == Some(accepted),
            Err(_) => bcrypt_verify_spec(plaintext@, digest@) is None,
        },
{
    match bcrypt_verify(plaintext, digest) {
        Ok(accepted) => Ok(accepted),
        Err(error) => Err(VerificationError { detail: error.to_string() }),
    }
}

} // verus!

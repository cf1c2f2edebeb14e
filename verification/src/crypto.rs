use vstd::prelude::*;

verus! {

/// What `bcrypt::verify` answers for a password and a stored hash string.
/// The answer is a function of the two arguments alone: the salt and the cost
/// are read back out of the hash string, and the digest is recomputed from
/// them and the password.
pub uninterp spec fn bcrypt_matches(password: Seq<char>, hash: Seq<char>) -> bool;

/// Whether a string is a well-formed bcrypt hash, that is, one that
/// `bcrypt::verify` parses without error: 60 ASCII characters of the form
/// `$<version>$<cost>$<salt+digest>` with an in-range cost. Every string that
/// `bcrypt::hash` returns is of this form.
pub uninterp spec fn is_bcrypt_hash(hash: Seq<char>) -> bool;

/// An infrastructure failure inside the hashing primitive. The service does
/// not recover from it locally: the caller turns it into a generic server
/// error.
#[derive(Clone, Copy, PartialEq, Eq, Structural, Debug)]
pub enum AuthError {
    HashingFailed,
}

/// Relies on `bcrypt::hash` with the crate's default cost: the salt is drawn
/// from OS randomness, so the hash string itself cannot be pinned down, but
/// every returned hash is a well-formed bcrypt hash and verifies against the
/// same password (`bcrypt::verify` recomputes the digest from the same salt,
/// cost and password bytes).
#[verifier::external_body]
pub(crate) fn hash_password(password: &String) -> (r: Result<String, AuthError>)
    ensures
        (r matches Ok(h) ==> bcrypt_matches(password@, h@) && is_bcrypt_hash(h@)),
{
    match bcrypt::hash(password, bcrypt::DEFAULT_COST) {
        Ok(h) => Ok(h),
        Err(_) => Err(AuthError::HashingFailed),
    }
}

/// Relies on `bcrypt::verify`: it parses the hash string, recomputes the
/// digest from the password with the parsed salt and cost, and compares; the
/// outcome depends on the two arguments alone. It returns an error exactly
/// when the hash string does not parse as a bcrypt hash.
#[verifier::external_body]
pub(crate) fn verify_password(password: &String, hash: &String) -> (r: Result<bool, AuthError>)
    ensures
        (r matches Ok(b) ==> b == bcrypt_matches(password@, hash@)),
        is_bcrypt_hash(hash@) ==> r is Ok,
        !is_bcrypt_hash(hash@) ==> r is Err,
{
    match bcrypt::verify(password, hash.as_str()) {
        Ok(b) => Ok(b),
        Err(_) => Err(AuthError::HashingFailed),
    }
}

} // verus!

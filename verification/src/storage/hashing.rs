//! Password hashing with Argon2id: a password becomes a PHC string that
//! carries algorithm, parameters and salt, and a PHC string is checked
//! against a password.

use vstd::prelude::*;
use argon2::password_hash::rand_core::OsRng;
use argon2::password_hash::{PasswordHash, PasswordHasher, PasswordVerifier, SaltString};
use argon2::Argon2;

verus! {

/// Why a text is no PHC string, as a line of text; `None` where it is one.
/// The grammar is that of the `password-hash` crate; left uninterpreted.
pub uninterp spec fn phc_parse_failure(hash: Seq<char>) -> Option<Seq<char>>;

/// Whether Argon2, run with the parameters and the salt that the PHC string
/// `hash` carries, turns `password` into the digest that `hash` carries.
/// Only meaningful where `hash` is a PHC string; left uninterpreted.
pub uninterp spec fn argon2_accepts(hash: Seq<char>, password: Seq<char>) -> bool;

/// What checking `password` against `hash` gives: an error where `hash` is
/// no PHC string, else whether the password is the one that was hashed.
pub open spec fn verification(hash: Seq<char>, password: Seq<char>) -> Result<bool, Seq<char>> {
    match phc_parse_failure(hash) {
        Some(reason) => Err(reason),
        None => Ok(argon2_accepts(hash, password)),
    }
}

/// Trusted: `PasswordHash::new` of `password-hash`, which parses a PHC
/// string. The contract names the rendered error, and its absence.
#[verifier::external_body]
fn parse_failure(password_hash: &str) -> (failure: Option<String>)
    ensures
        failure.deep_view() == phc_parse_failure(password_hash@),
{
    match PasswordHash::new(password_hash) {
        Ok(_) => None,
        Err(e) => Some(e.to_string()),
    }
}

/// Trusted: `PasswordVerifier::verify_password` of `Argon2::default()`, on
/// the bytes of the password and the PHC string parsed once more. The
/// contract names the answer, taken as "accepted" or "not accepted".
#[verifier::external_body]
fn argon2_verify(password_hash: &str, password: &str) -> (accepted: bool)
    requires
        phc_parse_failure(password_hash@) is None,
    ensures
        accepted == argon2_accepts(password_hash@, password@),
{
    match PasswordHash::new(password_hash) {
        Ok(parsed) => Argon2::default().verify_password(password.as_bytes(), &parsed).is_ok(),
        Err(_) => false,
    }
}

/// Trusted: `PasswordHasher::hash_password` of `Argon2::default()` with a
/// salt from `SaltString::generate` on the operating system's generator,
/// rendered as a PHC string. The salt is random, so the result has no name;
/// the contract states what the two crates document of every hash that comes
/// out: it parses, and it accepts the password it was made from.
#[verifier::external_body]
fn argon2_hash(password: &str) -> (res: Result<String, String>)
    ensures
        res matches Ok(hash) ==> phc_parse_failure(hash@) is None && argon2_accepts(
            hash@,
            password@,
        ),
{
    let salt = SaltString::generate(&mut OsRng);
    match Argon2::default().hash_password(password.as_bytes(), &salt) {
        Ok(hash) => Ok(hash.to_string()),
        Err(e) => Err(e.to_string()),
    }
}

/// Why a password could not be hashed, or a stored hash not be read.
#[derive(Debug, Clone, PartialEq, Eq)]
pub struct HashError {
    pub reason: String,
}

impl View for HashError {
    type V = Seq<char>;

    open spec fn view(&self) -> Seq<char> {
        self.reason@
    }
}

/// The mathematical content of the result of a verification.
pub open spec fn verdict_view(res: Result<bool, HashError>) -> Result<bool, Seq<char>> {
    match res {
        Ok(accepted) => Ok(accepted),
        Err(e) => Err(e@),
    }
}

/// The mathematical content of the result of a hashing.
pub open spec fn hashed_view(res: Result<String, HashError>) -> Result<Seq<char>, Seq<char>> {
    match res {
        Ok(hash) => Ok(hash@),
        Err(e) => Err(e@),
    }
}

/// The mathematical content of what Argon2 gave for a hashing.
pub open spec fn outcome_view(outcome: Result<String, String>) -> Result<Seq<char>, Seq<char>> {
    match outcome {
        Ok(hash) => Ok(hash@),
        Err(reason) => Err(reason@),
    }
}

/// Whether `hashed` may be what hashing `password` gave: any failure may,
/// and any hash that accepts `password`.
pub open spec fn hashes(hashed: Result<Seq<char>, Seq<char>>, password: Seq<char>) -> bool {
    hashed matches Ok(hash) ==> verification(hash, password) == Ok::<bool, Seq<char>>(true)
}

/// Hashes `password` with a fresh random salt. Two calls on one password
/// give different hashes; each hash that comes out verifies against the
/// password. Whether a hash comes out is for Argon2 to decide.
pub fn hash_password(password: &str) -> (res: Result<String, HashError>)
    ensures
        hashes(hashed_view(res), password@),
{
    hashed(argon2_hash(password))
}

/// Makes the result of a hashing of what Argon2 gave: the hash as it came,
/// or the error that holds the reason as it came.
pub fn hashed(outcome: Result<String, String>) -> (res: Result<String, HashError>)
    ensures
        hashed_view(res) == outcome_view(outcome),
{
    match outcome {
        Ok(hash) => Ok(hash),
        Err(reason) => Err(HashError { reason }),
    }
}

/// Checks `password` against a stored hash. A hash that cannot be read is an
/// error, and not the answer "no": the two are kept apart.
pub fn verify_password(password_hash: &str, password: &str) -> (res: Result<bool, HashError>)
    ensures
        verdict_view(res) == verification(password_hash@, password@),
{
    match parse_failure(password_hash) {
        Some(reason) => Err(HashError { reason }),
        None => Ok(argon2_verify(password_hash, password)),
    }
}

} // verus!

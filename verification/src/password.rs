use vstd::prelude::*;

use crate::lookup::LookupError;
use crate::text::utf8_len;

verus! {

/// The bcrypt crate's error type, carried through opaquely.
#[verifier::external_type_specification]
#[verifier::external_body]
pub struct ExBcryptError(bcrypt::BcryptError);

/// What `bcrypt::verify(password, hash)` returns: `Some(b)` for `Ok(b)`,
/// `None` for an error. It depends on its two arguments alone.
pub uninterp spec fn bcrypt_verify_outcome(password: Seq<char>, hash: Seq<char>) -> Option<bool>;

/// Calls `bcrypt::verify`. Trusted: the result is the named outcome for these
/// two strings, and a hash that is not 60 bytes long is rejected with an
/// error (the crate's `split_hash` checks the length first).
#[verifier::external_body]
fn bcrypt_verify(password: &String, hash: &String) -> (r: Result<bool, bcrypt::BcryptError>)
    ensures
        match r {
            Ok(b) => bcrypt_verify_outcome(password@, hash@) == Some(b),
            Err(_) => bcrypt_verify_outcome(password@, hash@) is None,
        },
        utf8_len(hash@) != 60 ==> r is Err,
{
    bcrypt::verify(password, hash)
}

/// Calls `bcrypt::hash(password, bcrypt::DEFAULT_COST)`. The salt is random,
/// so the hash itself is not stated; trusted: a hash that is returned is 60
/// bytes long and `bcrypt::verify` accepts the same password against it.
/// When the crate fails (only its random source can fail at this cost),
/// nothing more is stated.
#[verifier::external_body]
fn bcrypt_hash(password: &String) -> (r: Result<String, bcrypt::BcryptError>)
    ensures
        r matches Ok(h) ==> utf8_len(h@) == 60 && bcrypt_verify_outcome(password@, h@) == Some(
            true,
        ),
{
    bcrypt::hash(password, bcrypt::DEFAULT_COST)
}

/// Outcome of checking a password against a stored bcrypt hash.
#[derive(PartialEq, Eq, Structural, Clone, Copy, Debug)]
pub enum PasswordCheck {
    Matches,
    DoesNotMatch,
    VerifyFailed,
}

pub open spec fn spec_check_password(password: Seq<char>, hash: Seq<char>) -> PasswordCheck {
    match bcrypt_verify_outcome(password, hash) {
        Some(true) => PasswordCheck::Matches,
        Some(false) => PasswordCheck::DoesNotMatch,
        None => PasswordCheck::VerifyFailed,
    }
}

/// Checks `password` against the stored `hash` with bcrypt.
pub fn check_password(password: &String, hash: &String) -> (r: PasswordCheck)
    ensures
        r == spec_check_password(password@, hash@),
{
    match bcrypt_verify(password, hash) {
        Ok(true) => PasswordCheck::Matches,
        Ok(false) => PasswordCheck::DoesNotMatch,
        Err(_) => PasswordCheck::VerifyFailed,
    }
}

/// Hashes a new password with bcrypt at the crate's default cost; `None` when
/// the crate reports an error.
pub fn hash_password(password: &String) -> (r: Option<String>)
    ensures
        r matches Some(h) ==> utf8_len(h@) == 60 && spec_check_password(password@, h@)
            == PasswordCheck::Matches,
{
    match bcrypt_hash(password) {
        Ok(h) => Some(h),
        Err(_) => None,
    }
}

pub open spec fn spec_password_error(
    stored: Result<Seq<char>, LookupError>,
    password: Seq<char>,
) -> bool {
    match stored {
        Ok(hash) => spec_check_password(password, hash) != PasswordCheck::Matches,
        Err(_) => true,
    }
}

/// Error flag of the current-password field of the account forms: set unless
/// a stored hash was found and the password matches it.
pub fn current_password_error(stored: &Result<String, LookupError>, password: &String) -> (r:
    bool)
    ensures
        r == spec_password_error(
            match stored {
                Ok(h) => Ok(h@),
                Err(e) => Err(*e),
            },
            password@,
        ),
{
    match stored {
        Ok(hash) => {
            match check_password(password, hash) {
                PasswordCheck::Matches => false,
                _ => true,
            }
        },
        Err(_) => true,
    }
}

} // verus!

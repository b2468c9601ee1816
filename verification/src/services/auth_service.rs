//! Credentials: one-way hashes of passwords in the PHC string format, made
//! and verified with Argon2id.

use argon2::password_hash::rand_core::RngCore;
use argon2::{PasswordHasher, PasswordVerifier};
use vstd::prelude::*;
use crate::error::{DomainError, ErrorKind};

verus! {

/// The error of the `password-hash` crate, which `argon2` hands out.
#[verifier::external_type_specification]
#[verifier::external_body]
pub struct ExPasswordHashError(argon2::password_hash::Error);

/// The error of the operating system's random number source.
#[verifier::external_type_specification]
#[verifier::external_body]
pub struct ExEntropyError(argon2::password_hash::rand_core::Error);

/// The number of random bytes in the salt of a new credential.
pub const SALT_LENGTH: usize = 16;

/// The least number of bytes that a salt may have.
pub const MIN_SALT_LENGTH: usize = 8;

/// The greatest number of bytes that a salt may have: what fits the salt
/// field of a PHC string.
pub const MAX_SALT_LENGTH: usize = 48;

/// The encoded hash that Argon2id with its default parameters gives for a
/// password and a salt, or `None` where it gives an error.
pub uninterp spec fn argon2id_phc(password: Seq<char>, salt: Seq<u8>) -> Option<Seq<char>>;

/// Whether a text is read as a PHC string by `PasswordHash::new`.
pub uninterp spec fn phc_parses(credential: Seq<char>) -> bool;

/// Whether Argon2 accepts a password for the hash that a PHC string is read
/// as: it hashes the password again with the parameters and the salt of the
/// string and finds the same digest.
pub uninterp spec fn argon2_accepts(password: Seq<char>, credential: Seq<char>) -> bool;

/// Fills `count` bytes from the operating system's random number source,
/// through `OsRng::try_fill_bytes`. Which bytes come back, and whether the
/// source fails, is left open.
#[verifier::external_body]
fn os_entropy(count: usize) -> (r: Result<Vec<u8>, argon2::password_hash::rand_core::Error>)
    ensures
        r matches Ok(bytes) ==> bytes@.len() == count,
{
    let mut bytes = vec![0u8; count];
    argon2::password_hash::rand_core::OsRng.try_fill_bytes(&mut bytes)?;
    Ok(bytes)
}

/// Hashes with `Argon2::default().hash_password` and writes the hash out as
/// a PHC string.
///
/// The string depends on the password and the salt alone. The string that
/// comes out is one that `PasswordHash::new` reads, and verifying the same
/// password against it recomputes the same digest from the same salt and
/// parameters, so the password is accepted.
///
/// A salt of fewer than three bytes makes the `password-hash` crate stop the
/// program, and one of more than forty-eight does not fit its salt field;
/// the lengths asked for here keep clear of both.
#[verifier::external_body]
fn argon2_hash(password: &str, salt: &[u8]) -> (r: Result<String, argon2::password_hash::Error>)
    requires
        MIN_SALT_LENGTH <= salt@.len() <= MAX_SALT_LENGTH,
    ensures
        match r {
            Ok(h) => argon2id_phc(password@, salt@) == Some(h@) && phc_parses(h@)
                && argon2_accepts(password@, h@),
            Err(_) => argon2id_phc(password@, salt@) is None,
        },
{
    let salt = argon2::password_hash::SaltString::encode_b64(salt)?;
    Ok(argon2::Argon2::default().hash_password(password.as_bytes(), &salt)?.to_string())
}

/// Reads the credential with `PasswordHash::new` and, where that succeeds,
/// checks the password against it with `Argon2::default().verify_password`.
///
/// The outer result is that of the reading, the inner one that of the
/// check. Both depend on the two texts alone. The check takes the memory
/// and the time that the parameters in the credential ask for.
#[verifier::external_body]
fn argon2_verify(password: &str, credential: &str) -> (r: Result<
    Result<(), argon2::password_hash::Error>,
    argon2::password_hash::Error,
>)
    ensures
        match r {
            Ok(checked) => phc_parses(credential@) && (checked is Ok) == argon2_accepts(
                password@,
                credential@,
            ),
            Err(_) => !phc_parses(credential@),
        },
{
    let parsed = argon2::password_hash::PasswordHash::new(credential)?;
    Ok(argon2::Argon2::default().verify_password(password.as_bytes(), &parsed))
}

/// A credential of a password: the hash of the password under some salt of
/// the right length, which reads as a PHC string and accepts the password.
pub open spec fn is_credential_of(credential: Seq<char>, password: Seq<char>) -> bool {
    &&& exists|salt: Seq<u8>|
        salt.len() == SALT_LENGTH && #[trigger] argon2id_phc(password, salt) == Some(credential)
    &&& phc_parses(credential)
    &&& argon2_accepts(password, credential)
}

/// The encoded hash of a password under a salt: that of the hash function,
/// for a salt of a length that it takes.
pub open spec fn salted_hash(password: Seq<char>, salt: Seq<u8>) -> Option<Seq<char>> {
    if MIN_SALT_LENGTH <= salt.len() <= MAX_SALT_LENGTH {
        argon2id_phc(password, salt)
    } else {
        None
    }
}

/// What hashing a password under a given salt ends in: the encoded hash
/// that the password and the salt fix, which reads as a PHC string and
/// accepts the password; or, where there is no such hash, an internal error.
pub open spec fn hashing_result(password: Seq<char>, salt: Seq<u8>, r: Result<
    String,
    DomainError,
>) -> bool {
    match r {
        Ok(credential) => salted_hash(password, salt) == Some(credential@) && phc_parses(
            credential@,
        ) && argon2_accepts(password, credential@),
        Err(e) => salted_hash(password, salt) is None && e.is(
            ErrorKind::Internal,
            "Failed to hash password"@,
        ),
    }
}

/// What verifying a password against a credential gives: nothing where the
/// credential cannot be read, else whether the password is accepted.
pub open spec fn verification(password: Seq<char>, credential: Seq<char>) -> Option<bool> {
    if phc_parses(credential) {
        Some(argon2_accepts(password, credential))
    } else {
        None
    }
}

/// Hashing and verifying of passwords.
pub struct AuthService;

impl AuthService {
    /// Turns the outcome of the hash function into that of `hash_password`:
    /// the encoded hash as it is, any failure as an internal error.
    pub fn credential_from(hashed: Result<String, argon2::password_hash::Error>) -> (r: Result<
        String,
        DomainError,
    >)
        ensures
            match (hashed, r) {
                (Ok(h), Ok(c)) => c@ == h@,
                (Err(_), Err(e)) => e.is(ErrorKind::Internal, "Failed to hash password"@),
                _ => false,
            },
    {
        match hashed {
            Ok(h) => Ok(h),
            Err(_) => Err(DomainError::internal("Failed to hash password")),
        }
    }

    /// Hashes a password under the given salt. The credential is fixed by
    /// the password and the salt; a salt of a length that the hash function
    /// does not take gives an internal error.
    pub fn hash_with_salt(password: &str, salt: &[u8]) -> (r: Result<String, DomainError>)
        ensures
            hashing_result(password@, salt@, r),
    {
        if salt.len() < MIN_SALT_LENGTH || salt.len() > MAX_SALT_LENGTH {
            return Err(DomainError::internal("Failed to hash password"));
        }
        let hashed = argon2_hash(password, salt);
        AuthService::credential_from(hashed)
    }

    /// Hashes a password under a fresh random salt.
    ///
    /// Whatever the salt, a credential that comes back is one of the
    /// password. The only failure is an internal error, when the random
    /// number source or the hash function fails.
    pub fn hash_password(password: &str) -> (r: Result<String, DomainError>)
        ensures
            match r {
                Ok(credential) => is_credential_of(credential@, password@),
                Err(e) => e.is(ErrorKind::Internal, "Failed to hash password"@),
            },
    {
        let salt = match os_entropy(SALT_LENGTH) {
            Ok(bytes) => bytes,
            Err(_) => {
                return Err(DomainError::internal("Failed to hash password"));
            },
        };
        AuthService::hash_with_salt(password, salt.as_slice())
    }

    /// Checks a password against a stored credential.
    ///
    /// A credential that cannot be read is an internal error; a password
    /// that does not match is `Ok(false)`.
    pub fn verify_password(password: &str, hash: &str) -> (r: Result<bool, DomainError>)
        ensures
            match r {
                Ok(accepted) => verification(password@, hash@) == Some(accepted),
                Err(e) => verification(password@, hash@) is None && e.is(
                    ErrorKind::Internal,
                    "Invalid password hash"@,
                ),
            },
    {
        match argon2_verify(password, hash) {
            Ok(Ok(_)) => Ok(true),
            Ok(Err(_)) => Ok(false),
            Err(_) => Err(DomainError::internal("Invalid password hash")),
        }
    }
}

/// A password is accepted for every credential made of it.
pub proof fn lemma_credential_accepts_its_password(password: Seq<char>, credential: Seq<char>)
    requires
        is_credential_of(credential, password),
    ensures
        verification(password, credential) == Some(true),
{
}

} // verus!

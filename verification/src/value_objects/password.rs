//! The rules a password has to meet before an account is made with it.

use vstd::prelude::*;
use vstd::string::StringSliceAdditionalSpecFns;
use crate::error::{DomainError, ErrorKind};
use crate::text::{
    any_char, ascii_digit, is_ascii_digit, lemma_any_char_push, unicode_alphanumeric,
    unicode_lowercase, unicode_uppercase, utf8_len,
};

verus! {

/// The least number of bytes a password may have.
pub const MIN_LENGTH: usize = 8;

/// The greatest number of bytes a password may have.
pub const MAX_LENGTH: usize = 128;

/// The test for an upper-case letter.
pub open spec fn upper() -> spec_fn(char) -> bool {
    |c: char| unicode_uppercase(c)
}

/// The test for a lower-case letter.
pub open spec fn lower() -> spec_fn(char) -> bool {
    |c: char| unicode_lowercase(c)
}

/// The test for a digit.
pub open spec fn digit() -> spec_fn(char) -> bool {
    |c: char| ascii_digit(c)
}

/// The test for a character that is neither a letter nor a number.
pub open spec fn special() -> spec_fn(char) -> bool {
    |c: char| !unicode_alphanumeric(c)
}

/// A password is strong when its length in bytes lies within the limits and
/// it holds an upper-case letter, a lower-case letter, a digit and a
/// character that is neither letter nor number.
pub open spec fn strong_password(p: Seq<char>) -> bool {
    &&& MIN_LENGTH <= utf8_len(p) <= MAX_LENGTH
    &&& any_char(p, upper())
    &&& any_char(p, lower())
    &&& any_char(p, digit())
    &&& any_char(p, special())
}

/// The message of the first rule that a password breaks, if it breaks one.
/// The rules are tried in a fixed order: the two limits on the length, then
/// upper case, lower case, digit, special character.
pub open spec fn password_rejection(p: Seq<char>) -> Option<Seq<char>> {
    if utf8_len(p) < MIN_LENGTH {
        Some("Password must be at least 8 characters long"@)
    } else if utf8_len(p) > MAX_LENGTH {
        Some("Password must not exceed 128 characters"@)
    } else if !any_char(p, upper()) {
        Some("Password must contain at least one uppercase letter"@)
    } else if !any_char(p, lower()) {
        Some("Password must contain at least one lowercase letter"@)
    } else if !any_char(p, digit()) {
        Some("Password must contain at least one digit"@)
    } else if !any_char(p, special()) {
        Some("Password must contain at least one special character"@)
    } else {
        None
    }
}

/// The rules for passwords.
pub struct PasswordValidator;

impl PasswordValidator {
    /// Accepts a strong password and turns any other down with the message
    /// of the first rule it breaks.
    pub fn validate(password: &str) -> (r: Result<(), DomainError>)
        ensures
            match r {
                Ok(_) => strong_password(password@),
                Err(e) => password_rejection(password@) == Some(e.text())
                    && e.spec_kind() == ErrorKind::Validation,
            },
    {
        let length = password.as_bytes().len();
        if length < MIN_LENGTH {
            return Err(DomainError::validation("Password must be at least 8 characters long"));
        }
        if length > MAX_LENGTH {
            return Err(DomainError::validation("Password must not exceed 128 characters"));
        }
        let mut has_uppercase = false;
        let mut has_lowercase = false;
        let mut has_digit = false;
        let mut has_special = false;
        for c in it: password.chars()
            invariant
                it.seq() == password@,
                MIN_LENGTH <= utf8_len(password@) <= MAX_LENGTH,
                has_uppercase == any_char(password@.take(it.index() as int), upper()),
                has_lowercase == any_char(password@.take(it.index() as int), lower()),
                has_digit == any_char(password@.take(it.index() as int), digit()),
                has_special == any_char(password@.take(it.index() as int), special()),
        {
            proof {
                let seen = password@.take(it.index() as int);
                assert(password@.take(it.index() + 1) =~= seen.push(c));
                lemma_any_char_push(seen, c, upper());
                lemma_any_char_push(seen, c, lower());
                lemma_any_char_push(seen, c, digit());
                lemma_any_char_push(seen, c, special());
            }
            if c.is_uppercase() {
                has_uppercase = true;
            }
            if c.is_lowercase() {
                has_lowercase = true;
            }
            if is_ascii_digit(c) {
                has_digit = true;
            }
            if !c.is_alphanumeric() {
                has_special = true;
            }
        }
        assert(password@.take(password@.len() as int) =~= password@);
        if !has_uppercase {
            return Err(
                DomainError::validation("Password must contain at least one uppercase letter"),
            );
        }
        if !has_lowercase {
            return Err(
                DomainError::validation("Password must contain at least one lowercase letter"),
            );
        }
        if !has_digit {
            return Err(DomainError::validation("Password must contain at least one digit"));
        }
        if !has_special {
            return Err(
                DomainError::validation("Password must contain at least one special character"),
            );
        }
        Ok(())
    }
}

/// A password is strong exactly when no rule turns it down.
pub proof fn lemma_strong_iff_not_rejected(p: Seq<char>)
    ensures
        strong_password(p) <==> password_rejection(p) is None,
{
}

} // verus!

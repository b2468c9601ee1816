//! E-mail addresses, kept in lower case.

use vstd::prelude::*;
use crate::error::{DomainError, ErrorKind};
use crate::text::{contains_char, lowercased};

verus! {

/// An e-mail address that passed the shape test, in lower case.
#[derive(Clone, Debug)]
pub struct Email(String);

impl View for Email {
    type V = Seq<char>;

    closed spec fn view(&self) -> Seq<char> {
        self.0@
    }
}

/// An address has the shape of one when it is not empty and holds both an
/// at sign and a full stop.
pub open spec fn email_shaped(raw: Seq<char>) -> bool {
    raw.len() > 0 && raw.contains('@') && raw.contains('.')
}

/// The message with which a raw address is turned down, if it is.
pub open spec fn email_rejection(raw: Seq<char>) -> Option<Seq<char>> {
    if raw.len() == 0 {
        Some("Email cannot be empty"@)
    } else if !raw.contains('@') || !raw.contains('.') {
        Some("Invalid email format"@)
    } else {
        None
    }
}

impl Email {
    /// The address is the lower-case form of some text of the right shape.
    pub open spec fn wf(&self) -> bool {
        exists|raw: Seq<char>| email_shaped(raw) && self@ == #[trigger] lowercased(raw)
    }

    /// Checks the shape of `email` and keeps its lower-case form.
    pub fn new(email: &str) -> (r: Result<Email, DomainError>)
        ensures
            match r {
                Ok(e) => email_shaped(email@) && e@ == lowercased(email@) && e.wf(),
                Err(e) => email_rejection(email@) == Some(e.text())
                    && e.spec_kind() == ErrorKind::Validation,
            },
    {
        if email.is_empty() {
            return Err(DomainError::validation("Email cannot be empty"));
        }
        if !contains_char(email, '@') || !contains_char(email, '.') {
            return Err(DomainError::validation("Invalid email format"));
        }
        Ok(Email(email.to_lowercase()))
    }

    /// The address as text.
    pub fn as_str(&self) -> (s: &str)
        ensures
            s@ == self@,
    {
        self.0.as_str()
    }

    /// A copy of the address as an owned string.
    pub fn to_text(&self) -> (s: String)
        ensures
            s@ == self@,
    {
        self.0.clone()
    }
}

impl AsRef<str> for Email {
    fn as_ref(&self) -> (s: &str)
        ensures
            s@ == self@,
    {
        self.0.as_str()
    }
}

impl PartialEq for Email {
    fn eq(&self, other: &Email) -> (r: bool) {
        self.0 == other.0
    }
}

impl Eq for Email {}

impl vstd::std_specs::cmp::PartialEqSpecImpl for Email {
    open spec fn obeys_eq_spec() -> bool {
        true
    }

    open spec fn eq_spec(&self, other: &Email) -> bool {
        self@ == other@
    }
}

/// Turning an address down and accepting its shape exclude each other, and
/// one of the two holds.
pub proof fn lemma_email_shape_or_rejection(raw: Seq<char>)
    ensures
        email_shaped(raw) <==> email_rejection(raw) is None,
{
}

} // verus!

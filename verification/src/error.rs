//! The error taxonomy shared by every service of the crate.

use vstd::prelude::*;

verus! {

/// The five kinds of failure a caller can observe.
#[derive(Clone, Copy, Debug, PartialEq, Eq, Structural)]
pub enum ErrorKind {
    /// The input has the wrong shape or content; the caller can correct it.
    Validation,
    /// Credentials or token are missing or invalid.
    Unauthorized,
    /// The entity referred to does not exist.
    NotFound,
    /// A uniqueness rule would be broken.
    AlreadyExists,
    /// Hashing, signing or storage failed for reasons the caller did not cause.
    Internal,
}

impl ErrorKind {
    /// The HTTP status under which a failure of this kind is reported.
    pub open spec fn spec_status_code(self) -> u16 {
        match self {
            ErrorKind::Validation => 400,
            ErrorKind::Unauthorized => 401,
            ErrorKind::NotFound => 404,
            ErrorKind::AlreadyExists => 409,
            ErrorKind::Internal => 500,
        }
    }

    /// The HTTP status under which a failure of this kind is reported.
    #[verifier::when_used_as_spec(spec_status_code)]
    pub fn status_code(self) -> (code: u16)
        ensures
            code == self.spec_status_code(),
    {
        match self {
            ErrorKind::Validation => 400,
            ErrorKind::Unauthorized => 401,
            ErrorKind::NotFound => 404,
            ErrorKind::AlreadyExists => 409,
            ErrorKind::Internal => 500,
        }
    }
}

/// A failure together with its message.
#[derive(Clone, Debug)]
pub enum DomainError {
    ValidationError(String),
    Unauthorized(String),
    NotFound(String),
    AlreadyExists(String),
    InternalError(String),
}

impl DomainError {
    /// The kind of this error, as a mathematical value.
    pub open spec fn spec_kind(&self) -> ErrorKind {
        match self {
            DomainError::ValidationError(_) => ErrorKind::Validation,
            DomainError::Unauthorized(_) => ErrorKind::Unauthorized,
            DomainError::NotFound(_) => ErrorKind::NotFound,
            DomainError::AlreadyExists(_) => ErrorKind::AlreadyExists,
            DomainError::InternalError(_) => ErrorKind::Internal,
        }
    }

    /// The message of this error, as a sequence of characters.
    pub open spec fn text(&self) -> Seq<char> {
        match self {
            DomainError::ValidationError(m) => m@,
            DomainError::Unauthorized(m) => m@,
            DomainError::NotFound(m) => m@,
            DomainError::AlreadyExists(m) => m@,
            DomainError::InternalError(m) => m@,
        }
    }

    /// Whether this error has the given kind and message.
    pub open spec fn is(&self, kind: ErrorKind, message: Seq<char>) -> bool {
        self.spec_kind() == kind && self.text() == message
    }

    /// The kind of this error.
    #[verifier::when_used_as_spec(spec_kind)]
    pub fn kind(&self) -> (k: ErrorKind)
        ensures
            k == self.spec_kind(),
    {
        match self {
            DomainError::ValidationError(_) => ErrorKind::Validation,
            DomainError::Unauthorized(_) => ErrorKind::Unauthorized,
            DomainError::NotFound(_) => ErrorKind::NotFound,
            DomainError::AlreadyExists(_) => ErrorKind::AlreadyExists,
            DomainError::InternalError(_) => ErrorKind::Internal,
        }
    }

    /// The message of this error.
    pub fn message(&self) -> (m: &str)
        ensures
            m@ == self.text(),
    {
        match self {
            DomainError::ValidationError(m) => m.as_str(),
            DomainError::Unauthorized(m) => m.as_str(),
            DomainError::NotFound(m) => m.as_str(),
            DomainError::AlreadyExists(m) => m.as_str(),
            DomainError::InternalError(m) => m.as_str(),
        }
    }

    /// What the end user is told: the message of the error, except for an
    /// internal error, whose message stays inside.
    pub open spec fn public_text(&self) -> Seq<char> {
        if self.spec_kind() == ErrorKind::Internal {
            "Internal server error"@
        } else {
            self.text()
        }
    }

    /// What the end user is told of this error.
    pub fn public_message(&self) -> (m: &str)
        ensures
            m@ == self.public_text(),
    {
        match self {
            DomainError::InternalError(_) => "Internal server error",
            _ => self.message(),
        }
    }

    /// A validation failure with the given message.
    pub fn validation(message: &str) -> (e: DomainError)
        ensures
            e.is(ErrorKind::Validation, message@),
    {
        DomainError::ValidationError(message.to_owned())
    }

    /// A failure of authentication with the given message.
    pub fn unauthorized(message: &str) -> (e: DomainError)
        ensures
            e.is(ErrorKind::Unauthorized, message@),
    {
        DomainError::Unauthorized(message.to_owned())
    }

    /// The absence of an entity, with the given message.
    pub fn not_found(message: &str) -> (e: DomainError)
        ensures
            e.is(ErrorKind::NotFound, message@),
    {
        DomainError::NotFound(message.to_owned())
    }

    /// A clash with an entity that exists, with the given message.
    pub fn already_exists(message: &str) -> (e: DomainError)
        ensures
            e.is(ErrorKind::AlreadyExists, message@),
    {
        DomainError::AlreadyExists(message.to_owned())
    }

    /// An internal failure with the given message.
    pub fn internal(message: &str) -> (e: DomainError)
        ensures
            e.is(ErrorKind::Internal, message@),
    {
        DomainError::InternalError(message.to_owned())
    }
}

/// The caller's own failures are reported in the class of client errors,
/// internal ones in the class of server errors, and no two kinds share a
/// status.
pub proof fn lemma_status_codes(kind: ErrorKind, other: ErrorKind)
    ensures
        kind != ErrorKind::Internal ==> 400 <= kind.spec_status_code() < 500,
        kind == ErrorKind::Internal ==> 500 <= kind.spec_status_code() < 600,
        kind.spec_status_code() == other.spec_status_code() ==> kind == other,
{
}

} // verus!

//! The guard in front of the protected operations: it reads the bearer token
//! of a request and resolves it to the identity of the caller, or turns the
//! request down.

use vstd::prelude::*;
use crate::clock::{system_time, Timestamp};
use crate::error::{DomainError, ErrorKind};
use crate::ident::EntityId;
use crate::services::token::{validation_outcome, Claims, ClaimsView, TokenService};
use crate::text::starts_with;
use crate::value_objects::enums::UserRole;

verus! {

/// The identity of the caller of one request.
#[derive(Clone, Debug)]
pub struct AuthUser {
    pub id: EntityId,
    pub email: String,
    pub role: UserRole,
}

impl AuthUser {
    /// Whether this is the identity that the claims speak for.
    pub open spec fn is_identity_of(&self, claims: ClaimsView) -> bool {
        self.id == claims.sub && self.email@ == claims.email && self.role == claims.role
    }

    /// The identity that claims speak for.
    pub fn from_claims(claims: Claims) -> (user: AuthUser)
        ensures
            user.is_identity_of(claims@),
    {
        AuthUser { id: claims.sub, email: claims.email, role: claims.role }
    }
}

/// The token in the value of an authorization header: what follows the
/// scheme `Bearer` and one space, where the value begins with them.
pub open spec fn bearer_token(header: Seq<char>) -> Option<Seq<char>> {
    if "Bearer "@.is_prefix_of(header) {
        Some(header.skip(7))
    } else {
        None
    }
}

/// What the guard lets through at second `now`: the claims of the token in
/// the header, where there is a header, it holds a bearer token, and the
/// token is valid.
pub open spec fn guard_outcome(authorization: Option<Seq<char>>, secret: Seq<char>, now: i64) -> Option<
    ClaimsView,
> {
    match authorization {
        Some(header) => match bearer_token(header) {
            Some(token) => validation_outcome(token, secret, now),
            None => None,
        },
        None => None,
    }
}

/// The message with which the guard turns a request down at second `now`,
/// if it does: one for a request that brings no bearer token, another for a
/// token that is not valid.
pub open spec fn guard_rejection(authorization: Option<Seq<char>>, secret: Seq<char>, now: i64) -> Option<
    Seq<char>,
> {
    match authorization {
        Some(header) => match bearer_token(header) {
            Some(token) => if validation_outcome(token, secret, now) is None {
                Some("Invalid or expired token"@)
            } else {
                None
            },
            None => Some("Missing or invalid Authorization header"@),
        },
        None => Some("Missing or invalid Authorization header"@),
    }
}

/// The header value of a request as a mathematical value.
pub open spec fn header_view(authorization: Option<&str>) -> Option<Seq<char>> {
    match authorization {
        Some(header) => Some(header@),
        None => None,
    }
}

/// Takes the token out of the value of an authorization header.
pub fn extract_bearer(header: &str) -> (r: Option<&str>)
    ensures
        match r {
            Some(token) => bearer_token(header@) == Some(token@),
            None => bearer_token(header@) is None,
        },
{
    proof {
        reveal_strlit("Bearer ");
    }
    if starts_with(header, "Bearer ") {
        let token = header.substring_char(7, header.unicode_len());
        assert(header@.skip(7) =~= header@.subrange(7, header@.len() as int));
        Some(token)
    } else {
        None
    }
}

/// What the guard decides at second `now`: the identity that the token of
/// the request speaks for, or the error of a request that is turned down.
pub open spec fn guard_result(
    authorization: Option<Seq<char>>,
    secret: Seq<char>,
    now: i64,
    r: Result<AuthUser, DomainError>,
) -> bool {
    match r {
        Ok(user) => guard_outcome(authorization, secret, now) matches Some(claims)
            && user.is_identity_of(claims),
        Err(e) => guard_outcome(authorization, secret, now) is None && e.spec_kind()
            == ErrorKind::Unauthorized && guard_rejection(authorization, secret, now) == Some(
            e.text(),
        ),
    }
}

/// Decides at the moment `now` whether a request may pass: a request
/// without a header, with another scheme than `Bearer`, or with a token
/// that is not valid is turned down; every other request is let through
/// with the identity that its token speaks for.
pub fn auth_middleware_at(authorization: Option<&str>, tokens: &TokenService, now: Timestamp) -> (r:
    Result<AuthUser, DomainError>)
    ensures
        guard_result(header_view(authorization), tokens.secret(), now.secs, r),
{
    let token = match authorization {
        Some(header) => match extract_bearer(header) {
            Some(token) => token,
            None => {
                return Err(DomainError::unauthorized("Missing or invalid Authorization header"));
            },
        },
        None => {
            return Err(DomainError::unauthorized("Missing or invalid Authorization header"));
        },
    };
    match tokens.validate_at(token, now) {
        Ok(claims) => Ok(AuthUser::from_claims(claims)),
        Err(e) => Err(e),
    }
}

/// Decides at the present moment whether a request may pass, whichever
/// second the clock gives.
pub fn auth_middleware(authorization: Option<&str>, tokens: &TokenService) -> (r: Result<
    AuthUser,
    DomainError,
>)
    ensures
        exists|now: i64|
            now >= 0 && #[trigger] guard_result(
                header_view(authorization),
                tokens.secret(),
                now,
                r,
            ),
{
    let now = system_time();
    let r = auth_middleware_at(authorization, tokens, now);
    assert(guard_result(header_view(authorization), tokens.secret(), now.secs, r));
    r
}

/// No request passes the guard without a bearer token, and one that passes
/// does so under the claims to which its token is validated.
pub proof fn lemma_guard_lets_only_valid_tokens_through(
    authorization: Option<Seq<char>>,
    secret: Seq<char>,
    now: i64,
)
    ensures
        guard_outcome(authorization, secret, now) is None <==> guard_rejection(
            authorization,
            secret,
            now,
        ) is Some,
        authorization is None ==> guard_outcome(authorization, secret, now) is None,
        authorization matches Some(header) && bearer_token(header) is None ==> guard_outcome(
            authorization,
            secret,
            now,
        ) is None,
        guard_outcome(authorization, secret, now) matches Some(claims) ==> {
            &&& authorization matches Some(header)
            &&& bearer_token(header) matches Some(token)
            &&& validation_outcome(token, secret, now) == Some(claims)
            &&& claims.exp > now
        },
{
}

} // verus!

//! Bearer tokens: identity claims signed with a shared secret (HS256), with
//! an expiry that the service itself checks against the clock.

use vstd::prelude::*;
use crate::clock::{system_time, Timestamp};
use crate::error::{DomainError, ErrorKind};
use crate::ident::{uuid_text, EntityId};
use crate::text::same_text;
use crate::value_objects::enums::{lemma_role_name_round_trip, UserRole};

verus! {

/// The error of the `jsonwebtoken` crate.
#[verifier::external_type_specification]
#[verifier::external_body]
pub struct ExTokenError(jsonwebtoken::errors::Error);

/// The identity that a token speaks for, and the second at which it stops
/// being valid.
#[derive(Clone, Debug)]
pub struct Claims {
    pub sub: EntityId,
    pub email: String,
    pub role: UserRole,
    pub exp: i64,
}

/// Claims as mathematical values.
pub struct ClaimsView {
    pub sub: EntityId,
    pub email: Seq<char>,
    pub role: UserRole,
    pub exp: i64,
}

impl View for Claims {
    type V = ClaimsView;

    open spec fn view(&self) -> ClaimsView {
        ClaimsView { sub: self.sub, email: self.email@, role: self.role, exp: self.exp }
    }
}

/// The value of one member of the payload of a token, as far as the service
/// tells values apart: a text, a whole number, or anything else.
#[derive(Clone, Debug)]
pub enum ClaimValue {
    Text(String),
    Integer(i64),
    Other,
}

/// The value of a member as a mathematical value.
pub enum ClaimValueView {
    Text(Seq<char>),
    Integer(i64),
    Other,
}

impl View for ClaimValue {
    type V = ClaimValueView;

    open spec fn view(&self) -> ClaimValueView {
        match self {
            ClaimValue::Text(text) => ClaimValueView::Text(text@),
            ClaimValue::Integer(number) => ClaimValueView::Integer(*number),
            ClaimValue::Other => ClaimValueView::Other,
        }
    }
}

/// One member of the payload of a token: a name and its value.
#[derive(Clone, Debug)]
pub struct Member {
    pub name: String,
    pub value: ClaimValue,
}

/// A member as a mathematical value.
pub struct MemberView {
    pub name: Seq<char>,
    pub value: ClaimValueView,
}

impl View for Member {
    type V = MemberView;

    open spec fn view(&self) -> MemberView {
        MemberView { name: self.name@, value: self.value@ }
    }
}

/// The members of a payload as mathematical values, in their order.
pub open spec fn payload_view(members: Seq<Member>) -> Seq<MemberView> {
    members.map_values(|member: Member| member@)
}

/// No two members of the payload have the same name.
pub open spec fn names_distinct(payload: Seq<MemberView>) -> bool {
    forall|i: int, j: int|
        0 <= i < j < payload.len() ==> (#[trigger] payload[i]).name != (#[trigger] payload[j]).name
}

/// The value of the first member of the payload that has the given name.
pub open spec fn member_value(payload: Seq<MemberView>, name: Seq<char>) -> Option<ClaimValueView>
    decreases payload.len(),
{
    if payload.len() == 0 {
        None
    } else if payload[0].name == name {
        Some(payload[0].value)
    } else {
        member_value(payload.drop_first(), name)
    }
}

/// Two payloads hold the same value under every name.
pub open spec fn same_members(one: Seq<MemberView>, other: Seq<MemberView>) -> bool {
    forall|name: Seq<char>| #[trigger] member_value(one, name) == member_value(other, name)
}

/// The token that `jsonwebtoken::encode` makes under the default header
/// from a payload and a secret, or `None` where it gives an error.
pub uninterp spec fn hs256_token(payload: Seq<MemberView>, secret: Seq<char>) -> Option<Seq<char>>;

/// The members of the payload that `jsonwebtoken::decode` hands out for a
/// token whose signature it accepts under the secret, or `None` where it
/// rejects the token. Neither the expiry nor the audience is looked at.
pub uninterp spec fn hs256_payload(token: Seq<char>, secret: Seq<char>) -> Option<Seq<MemberView>>;

/// Signs a payload with `jsonwebtoken::encode`, under the default header
/// (HS256) and a key made of the secret's bytes. The payload is the JSON
/// object of the members in their order: a text as a string, a whole number
/// as a number, anything else as `null`.
///
/// The token depends on the payload and the secret alone. Where no two
/// members have the same name, decoding what comes out under the same secret
/// accepts the signature and gives every member back under its name.
#[verifier::external_body]
fn jwt_encode(payload: &Vec<Member>, secret: &str) -> (r: Result<
    String,
    jsonwebtoken::errors::Error,
>)
    ensures
        match r {
            Ok(token) => hs256_token(payload_view(payload@), secret@) == Some(token@) && (
            names_distinct(payload_view(payload@)) ==> (hs256_payload(token@, secret@) matches Some(
                decoded,
            ) && same_members(decoded, payload_view(payload@)))),
            Err(_) => hs256_token(payload_view(payload@), secret@) is None,
        },
{
    let mut object = serde_json::Map::new();
    for member in payload {
        let value = match &member.value {
            ClaimValue::Text(text) => serde_json::Value::from(text.as_str()),
            ClaimValue::Integer(number) => serde_json::Value::from(*number),
            ClaimValue::Other => serde_json::Value::Null,
        };
        object.insert(member.name.clone(), value);
    }
    let key = jsonwebtoken::EncodingKey::from_secret(secret.as_bytes());
    jsonwebtoken::encode(&jsonwebtoken::Header::default(), &object, &key)
}

/// Opens a token with `jsonwebtoken::decode`, which checks the HS256
/// signature under a key made of the secret's bytes and reads the payload as
/// a JSON object, and hands out the members of the object in their order: a
/// string as a text, a number that is a whole one within 64 bits as a whole
/// number, anything else as other.
///
/// The checks of the expiry and of the audience are switched off and no
/// claim is asked for, so that what comes back depends on the token and the
/// secret alone.
#[verifier::external_body]
fn jwt_decode(token: &str, secret: &str) -> (r: Result<Vec<Member>, jsonwebtoken::errors::Error>)
    ensures
        match r {
            Ok(payload) => hs256_payload(token@, secret@) == Some(payload_view(payload@)),
            Err(_) => hs256_payload(token@, secret@) is None,
        },
{
    let mut rules = jsonwebtoken::Validation::new(jsonwebtoken::Algorithm::HS256);
    rules.validate_exp = false;
    rules.validate_aud = false;
    rules.required_spec_claims.clear();
    let key = jsonwebtoken::DecodingKey::from_secret(secret.as_bytes());
    let object = jsonwebtoken::decode::<serde_json::Map<String, serde_json::Value>>(token, &key, &rules)?;
    Ok(object.claims.into_iter().map(|(name, value)| Member { name, value: match value {
        serde_json::Value::String(text) => ClaimValue::Text(text),
        serde_json::Value::Number(number) => number.as_i64().map_or(ClaimValue::Other, ClaimValue::Integer),
        _ => ClaimValue::Other,
    } }).collect())
}

/// The payload that claims are written as: the subject as the text of its
/// identifier under `sub`, the address under `email`, the name of the role
/// under `role`, and the expiry under `exp`.
pub open spec fn claims_payload(
    sub: Seq<char>,
    email: Seq<char>,
    role: Seq<char>,
    exp: i64,
) -> Seq<MemberView> {
    seq![
        MemberView { name: "sub"@, value: ClaimValueView::Text(sub) },
        MemberView { name: "email"@, value: ClaimValueView::Text(email) },
        MemberView { name: "role"@, value: ClaimValueView::Text(role) },
        MemberView { name: "exp"@, value: ClaimValueView::Integer(exp) },
    ]
}

/// The claims that a payload stands for: `sub`, `email` and `role` are there
/// as texts and `exp` as a whole number, the subject is the text of an
/// identifier and the role the name of a role.
pub open spec fn claims_of(payload: Seq<MemberView>) -> Option<ClaimsView> {
    match (
        member_value(payload, "sub"@),
        member_value(payload, "email"@),
        member_value(payload, "role"@),
        member_value(payload, "exp"@),
    ) {
        (
            Some(ClaimValueView::Text(sub)),
            Some(ClaimValueView::Text(email)),
            Some(ClaimValueView::Text(role)),
            Some(ClaimValueView::Integer(exp)),
        ) => match (EntityId::from_text(sub), UserRole::from_name(role)) {
            (Some(id), Some(r)) => Some(ClaimsView { sub: id, email, role: r, exp }),
            _ => None,
        },
        _ => None,
    }
}

/// A token carries claims under a secret when its signature is accepted and
/// its payload stands for these claims.
pub open spec fn token_carries(token: Seq<char>, secret: Seq<char>, claims: ClaimsView) -> bool {
    match hs256_payload(token, secret) {
        Some(payload) => claims_of(payload) == Some(claims),
        None => false,
    }
}

/// What validating a token at second `now` gives: the claims that the token
/// carries, as long as they expire after `now`.
pub open spec fn validation_outcome(token: Seq<char>, secret: Seq<char>, now: i64) -> Option<
    ClaimsView,
> {
    match hs256_payload(token, secret) {
        Some(payload) => match claims_of(payload) {
            Some(claims) => if claims.exp > now {
                Some(claims)
            } else {
                None
            },
            None => None,
        },
        None => None,
    }
}

/// The token that minting gives at second `now`: none where the expiry does
/// not fit the machine's integers or the signing fails.
pub open spec fn minting_outcome(
    subject: EntityId,
    email: Seq<char>,
    role: UserRole,
    ttl_seconds: i64,
    now: i64,
    secret: Seq<char>,
) -> Option<Seq<char>> {
    if i64::MIN <= now + ttl_seconds <= i64::MAX {
        hs256_token(
            claims_payload(
                uuid_text(subject.0),
                email,
                role.spec_name(),
                (now + ttl_seconds) as i64,
            ),
            secret,
        )
    } else {
        None
    }
}

/// What minting at second `now` ends in: the token that the arguments and
/// the secret fix, which carries the claims it was made of; or, where there
/// is no such token, an internal error.
pub open spec fn mint_result(
    subject: EntityId,
    email: Seq<char>,
    role: UserRole,
    ttl_seconds: i64,
    now: i64,
    secret: Seq<char>,
    r: Result<String, DomainError>,
) -> bool {
    match r {
        Ok(token) => minting_outcome(subject, email, role, ttl_seconds, now, secret) == Some(
            token@,
        ) && token_carries(
            token@,
            secret,
            ClaimsView { sub: subject, email, role, exp: (now + ttl_seconds) as i64 },
        ),
        Err(e) => minting_outcome(subject, email, role, ttl_seconds, now, secret) is None && e.is(
            ErrorKind::Internal,
            "Failed to generate token"@,
        ),
    }
}

/// What validating at second `now` ends in: the claims of a valid token, and
/// one and the same error for every other token.
pub open spec fn validation_result(
    token: Seq<char>,
    secret: Seq<char>,
    now: i64,
    r: Result<Claims, DomainError>,
) -> bool {
    match r {
        Ok(claims) => validation_outcome(token, secret, now) == Some(claims@),
        Err(e) => validation_outcome(token, secret, now) is None && e.is(
            ErrorKind::Unauthorized,
            "Invalid or expired token"@,
        ),
    }
}

/// The payload of claims names its four members apart, and each of them is
/// found under its name.
pub proof fn lemma_claims_payload(sub: Seq<char>, email: Seq<char>, role: Seq<char>, exp: i64)
    ensures
        names_distinct(claims_payload(sub, email, role, exp)),
        member_value(claims_payload(sub, email, role, exp), "sub"@) == Some(
            ClaimValueView::Text(sub),
        ),
        member_value(claims_payload(sub, email, role, exp), "email"@) == Some(
            ClaimValueView::Text(email),
        ),
        member_value(claims_payload(sub, email, role, exp), "role"@) == Some(
            ClaimValueView::Text(role),
        ),
        member_value(claims_payload(sub, email, role, exp), "exp"@) == Some(
            ClaimValueView::Integer(exp),
        ),
{
    reveal_strlit("sub");
    reveal_strlit("email");
    reveal_strlit("role");
    reveal_strlit("exp");
    assert("sub"@[0] == 's');
    assert("email"@[0] == 'e' && "email"@[1] == 'm');
    assert("role"@[0] == 'r');
    assert("exp"@[0] == 'e' && "exp"@[1] == 'x');
    let p = claims_payload(sub, email, role, exp);
    let p1 = p.drop_first();
    let p2 = p1.drop_first();
    let p3 = p2.drop_first();
    assert(p1[0] == p[1] && p2[0] == p[2] && p3[0] == p[3]);
    assert(p3.drop_first().len() == 0);
    reveal_with_fuel(member_value, 5);
}

/// Looks a member up by its name: the value of the first member of that
/// name, if there is one.
pub fn find_member<'a>(payload: &'a Vec<Member>, name: &str) -> (r: Option<&'a ClaimValue>)
    ensures
        match r {
            Some(value) => member_value(payload_view(payload@), name@) == Some(value@),
            None => member_value(payload_view(payload@), name@) is None,
        },
{
    let ghost all = payload_view(payload@);
    let mut i: usize = 0;
    assert(all.skip(0) =~= all);
    while i < payload.len()
        invariant
            i <= payload.len(),
            all == payload_view(payload@),
            member_value(all, name@) == member_value(all.skip(i as int), name@),
        decreases payload.len() - i,
    {
        proof {
            assert(all.skip(i as int)[0] == payload@[i as int]@);
            assert(all.skip(i as int).drop_first() =~= all.skip(i + 1));
        }
        if same_text(payload[i].name.as_str(), name) {
            return Some(&payload[i].value);
        }
        i += 1;
    }
    assert(all.skip(i as int).len() == 0);
    None
}

/// Writes claims as a payload.
pub fn payload_of(sub: &str, email: &str, role: &str, exp: i64) -> (payload: Vec<Member>)
    ensures
        payload_view(payload@) == claims_payload(sub@, email@, role@, exp),
{
    let mut payload: Vec<Member> = Vec::new();
    payload.push(Member { name: "sub".to_owned(), value: ClaimValue::Text(sub.to_owned()) });
    payload.push(Member { name: "email".to_owned(), value: ClaimValue::Text(email.to_owned()) });
    payload.push(Member { name: "role".to_owned(), value: ClaimValue::Text(role.to_owned()) });
    payload.push(Member { name: "exp".to_owned(), value: ClaimValue::Integer(exp) });
    assert(payload_view(payload@) =~= claims_payload(sub@, email@, role@, exp));
    payload
}

/// Reads claims out of a payload; `None` where one of the four is missing
/// or of the wrong kind, or the subject or the role cannot be read.
pub fn claims_from_payload(payload: &Vec<Member>) -> (r: Option<Claims>)
    ensures
        match r {
            Some(claims) => claims_of(payload_view(payload@)) == Some(claims@),
            None => claims_of(payload_view(payload@)) is None,
        },
{
    let sub = match find_member(payload, "sub") {
        Some(ClaimValue::Text(sub)) => sub,
        _ => {
            return None;
        },
    };
    let email = match find_member(payload, "email") {
        Some(ClaimValue::Text(email)) => email,
        _ => {
            return None;
        },
    };
    let role = match find_member(payload, "role") {
        Some(ClaimValue::Text(role)) => role,
        _ => {
            return None;
        },
    };
    let exp = match find_member(payload, "exp") {
        Some(ClaimValue::Integer(exp)) => *exp,
        _ => {
            return None;
        },
    };
    match (EntityId::parse(sub.as_str()), UserRole::parse(role.as_str())) {
        (Some(id), Some(r)) => Some(Claims { sub: id, email: email.clone(), role: r, exp }),
        _ => None,
    }
}

/// Mints and validates tokens under one secret.
pub struct TokenService {
    secret: String,
}

impl TokenService {
    /// The secret that the service signs and checks with.
    pub closed spec fn secret(&self) -> Seq<char> {
        self.secret@
    }

    /// A service for the given secret.
    pub fn new(secret: String) -> (s: TokenService)
        ensures
            s.secret() == secret@,
    {
        TokenService { secret }
    }

    /// Mints a token for `subject` that expires `ttl_seconds` after `now`.
    ///
    /// The token is fixed by the arguments and the secret. It carries the
    /// claims it was made of. The only failure is an internal error: where
    /// the expiry does not fit the machine's integers, or the signing fails.
    pub fn mint_at(
        &self,
        subject: EntityId,
        email: &str,
        role: UserRole,
        ttl_seconds: i64,
        now: Timestamp,
    ) -> (r: Result<String, DomainError>)
        ensures
            mint_result(subject, email@, role, ttl_seconds, now.secs, self.secret(), r),
    {
        let exp = match now.secs.checked_add(ttl_seconds) {
            Some(exp) => exp,
            None => {
                return Err(DomainError::internal("Failed to generate token"));
            },
        };
        let sub = subject.to_text();
        let payload = payload_of(sub.as_str(), email, role.name(), exp);
        proof {
            lemma_claims_payload(sub@, email@, role.spec_name(), exp);
            lemma_role_name_round_trip(role);
        }
        match jwt_encode(&payload, self.secret.as_str()) {
            Ok(token) => Ok(token),
            Err(_) => Err(DomainError::internal("Failed to generate token")),
        }
    }

    /// Mints a token for `subject` that expires `ttl_seconds` after the
    /// present moment, whichever second the clock gives.
    pub fn mint(&self, subject: EntityId, email: &str, role: UserRole, ttl_seconds: i64) -> (r:
        Result<String, DomainError>)
        ensures
            exists|now: i64|
                now >= 0 && #[trigger] mint_result(
                    subject,
                    email@,
                    role,
                    ttl_seconds,
                    now,
                    self.secret(),
                    r,
                ),
    {
        let now = system_time();
        let r = self.mint_at(subject, email, role, ttl_seconds, now);
        assert(mint_result(subject, email@, role, ttl_seconds, now.secs, self.secret(), r));
        r
    }

    /// Validates a token at the moment `now`.
    ///
    /// A token is valid when its signature is accepted under the secret, its
    /// payload stands for claims, and these expire after `now`. Every other
    /// token is turned down with one and the same error.
    pub fn validate_at(&self, token: &str, now: Timestamp) -> (r: Result<Claims, DomainError>)
        ensures
            validation_result(token@, self.secret(), now.secs, r),
    {
        let payload = match jwt_decode(token, self.secret.as_str()) {
            Ok(payload) => payload,
            Err(_) => {
                return Err(DomainError::unauthorized("Invalid or expired token"));
            },
        };
        match claims_from_payload(&payload) {
            Some(claims) => {
                if claims.exp > now.secs {
                    Ok(claims)
                } else {
                    Err(DomainError::unauthorized("Invalid or expired token"))
                }
            },
            None => Err(DomainError::unauthorized("Invalid or expired token")),
        }
    }

    /// Validates a token at the present moment, whichever second the clock
    /// gives.
    pub fn validate(&self, token: &str) -> (r: Result<Claims, DomainError>)
        ensures
            exists|now: i64| now >= 0 && #[trigger] validation_result(token@, self.secret(), now, r),
    {
        let now = system_time();
        let r = self.validate_at(token, now);
        assert(validation_result(token@, self.secret(), now.secs, r));
        r
    }
}

/// A token is validated to the claims it carries as long as they have not
/// expired, and to nothing from their expiry on.
pub proof fn lemma_carried_claims_are_validated(
    token: Seq<char>,
    secret: Seq<char>,
    claims: ClaimsView,
    now: i64,
)
    requires
        token_carries(token, secret, claims),
    ensures
        validation_outcome(token, secret, now) == if claims.exp > now {
            Some(claims)
        } else {
            None
        },
{
}

/// The round trip of a token: what was minted at one second is validated at
/// another to the subject, the address and the role it was minted for, with
/// the expiry that the minting gave it, as long as that expiry lies after
/// the second of the validation; from the expiry on it is turned down.
pub proof fn lemma_minted_token_round_trips(
    subject: EntityId,
    email: Seq<char>,
    role: UserRole,
    ttl_seconds: i64,
    minted_at: i64,
    checked_at: i64,
    secret: Seq<char>,
    token: String,
    r: Result<Claims, DomainError>,
)
    requires
        mint_result(
            subject,
            email,
            role,
            ttl_seconds,
            minted_at,
            secret,
            Ok::<String, DomainError>(token),
        ),
        validation_result(token@, secret, checked_at, r),
    ensures
        minted_at + ttl_seconds > checked_at ==> (r matches Ok(claims) && claims.sub == subject
            && claims.email@ == email && claims.role == role && claims.exp == minted_at
            + ttl_seconds),
        minted_at + ttl_seconds <= checked_at ==> (r matches Err(e) && e.is(
            ErrorKind::Unauthorized,
            "Invalid or expired token"@,
        )),
        ttl_seconds < 0 && checked_at >= minted_at ==> r is Err,
{
}

} // verus!

//! Accounts: registration and login against the store of accounts.

use vstd::prelude::*;
use crate::commands::{CreateUserCommand, LoginCommand};
use crate::entities::user::User;
use crate::error::{DomainError, ErrorKind};
use crate::ident::is_random_v4;
use crate::repositories::UserRepository;
use crate::services::auth_service::{is_credential_of, verification, AuthService};
use crate::services::token::{
    lemma_minted_token_round_trips, mint_result, validation_result, Claims, TokenService,
};
use crate::text::lowercased;
use crate::value_objects::email::{email_rejection, email_shaped, Email};
use crate::value_objects::enums::UserRole;
use crate::value_objects::password::{password_rejection, strong_password, PasswordValidator};

verus! {

/// What a successful login hands out: the token and the account.
#[derive(Clone, Debug)]
pub struct AuthResponse {
    pub token: String,
    pub user: User,
}

/// The message with which a registration is turned down before the store is
/// asked: that of the address if it is turned down, else that of the
/// password if it is.
pub open spec fn registration_rejection(email: Seq<char>, password: Seq<char>) -> Option<
    Seq<char>,
> {
    match email_rejection(email) {
        Some(message) => Some(message),
        None => password_rejection(password),
    }
}

/// The error that a login ends in, given what the store holds for the
/// address: none where the password is accepted for the stored credential.
pub open spec fn login_rejection(stored: Option<Seq<char>>, password: Seq<char>) -> Option<
    (ErrorKind, Seq<char>),
> {
    match stored {
        None => Some((ErrorKind::Unauthorized, "Invalid credentials"@)),
        Some(credential) => match verification(password, credential) {
            None => Some((ErrorKind::Internal, "Invalid password hash"@)),
            Some(false) => Some((ErrorKind::Unauthorized, "Invalid credentials"@)),
            Some(true) => None,
        },
    }
}

/// A token is one of an account when it was minted for the identifier, the
/// address and the role of the account at some second of the clock, to
/// expire `ttl_seconds` later.
pub open spec fn is_token_of(token: String, secret: Seq<char>, ttl_seconds: i64, user: User) -> bool {
    exists|now: i64|
        now >= 0 && #[trigger] mint_result(
            user.id,
            user.email@,
            user.role,
            ttl_seconds,
            now,
            secret,
            Ok::<String, DomainError>(token),
        )
}

/// The credential of the account that the store has found, if it has.
pub open spec fn stored_credential(found: Option<User>) -> Option<Seq<char>> {
    match found {
        Some(user) => Some(user.password_hash@),
        None => None,
    }
}

/// The account that a registration asks for: under a fresh identifier, with
/// the address in lower case, the name and the role of the request (the role
/// `Member` where none is asked for), and a credential of its password.
pub open spec fn is_account_of(user: User, cmd: CreateUserCommand) -> bool {
    &&& is_random_v4(user.id.0)
    &&& user.email@ == lowercased(cmd.email@)
    &&& user.email.wf()
    &&& user.name == cmd.name
    &&& user.role == match cmd.role {
        Some(role) => role,
        None => UserRole::Member,
    }
    &&& is_credential_of(user.password_hash@, cmd.password@)
    &&& user.avatar_url is None
    &&& user.created_at == user.updated_at
}

/// What a registration ends in over a store.
///
/// A request that fails its checks ends in the message of the first check
/// it fails. Every other request is decided on what the store answers when
/// asked for the address in lower case: a failure of the store is handed
/// on; an account that is there ends the registration as a clash; and where
/// nobody has the address, the result is what the store answers when handed
/// the account that the request asks for, unless the hashing fails.
pub open spec fn registration_outcome<R: UserRepository>(
    store: R,
    cmd: CreateUserCommand,
    r: Result<User, DomainError>,
) -> bool {
    match registration_rejection(cmd.email@, cmd.password@) {
        Some(message) => r matches Err(e) && e.is(ErrorKind::Validation, message),
        None => exists|found: Result<Option<User>, DomainError>| #[trigger]
            store.answers_find_by_email(lowercased(cmd.email@), found) && match found {
                Err(failure) => r == Err::<User, DomainError>(failure),
                Ok(Some(_)) => r matches Err(e) && e.is(
                    ErrorKind::AlreadyExists,
                    "Email already registered"@,
                ),
                Ok(None) => (r matches Err(e) && e.is(
                    ErrorKind::Internal,
                    "Failed to hash password"@,
                )) || exists|user: User| #[trigger]
                    store.answers_create(user, r) && is_account_of(user, cmd),
            },
    }
}

/// What a login ends in over a store, under a secret and a lifetime of
/// tokens.
///
/// The login is decided on what the store answers when asked for the
/// address in lower case: a failure of the store is handed on; where there
/// is no account, or the password is not accepted for its credential, the
/// login ends in the error of `login_rejection`; else it hands out the
/// account as the store gave it, with a token of the account, unless the
/// minting fails.
pub open spec fn login_outcome<R: UserRepository>(
    store: R,
    secret: Seq<char>,
    ttl_seconds: i64,
    cmd: LoginCommand,
    r: Result<AuthResponse, DomainError>,
) -> bool {
    exists|found: Result<Option<User>, DomainError>| #[trigger]
        store.answers_find_by_email(lowercased(cmd.email@), found) && match found {
            Err(failure) => r == Err::<AuthResponse, DomainError>(failure),
            Ok(account) => match login_rejection(stored_credential(account), cmd.password@) {
                Some((kind, message)) => r matches Err(e) && e.is(kind, message),
                None => match r {
                    Ok(response) => Some(response.user) == account && is_token_of(
                        response.token,
                        secret,
                        ttl_seconds,
                        response.user,
                    ),
                    Err(e) => e.is(ErrorKind::Internal, "Failed to generate token"@),
                },
            },
        }
}

/// Registration and login.
pub struct AuthAppService<R: UserRepository> {
    user_repository: R,
    tokens: TokenService,
    jwt_expiration: i64,
}

impl<R: UserRepository> AuthAppService<R> {
    /// The store that the service works against.
    pub closed spec fn store(&self) -> R {
        self.user_repository
    }

    /// The secret that tokens are signed with.
    pub closed spec fn jwt_secret(&self) -> Seq<char> {
        self.tokens.secret()
    }

    /// The number of seconds a token is valid for.
    pub closed spec fn jwt_expiration(&self) -> i64 {
        self.jwt_expiration
    }

    /// A service over the given store, which signs tokens with `jwt_secret`
    /// and lets them expire after `jwt_expiration` seconds.
    pub fn new(user_repository: R, jwt_secret: String, jwt_expiration: i64) -> (service: Self)
        ensures
            service.store() == user_repository,
            service.jwt_secret() == jwt_secret@,
            service.jwt_expiration() == jwt_expiration,
    {
        AuthAppService { user_repository, tokens: TokenService::new(jwt_secret), jwt_expiration }
    }

    /// Checks the address and the password of a registration, in this
    /// order, and hands out the address in lower case.
    pub fn check_registration(email: &str, password: &str) -> (r: Result<Email, DomainError>)
        ensures
            match r {
                Ok(address) => registration_rejection(email@, password@) is None
                    && email_shaped(email@) && strong_password(password@) && address@
                    == lowercased(email@) && address.wf(),
                Err(e) => registration_rejection(email@, password@) == Some(e.text())
                    && e.spec_kind() == ErrorKind::Validation,
            },
    {
        let address = match Email::new(email) {
            Ok(address) => address,
            Err(e) => {
                return Err(e);
            },
        };
        match PasswordValidator::validate(password) {
            Ok(_) => Ok(address),
            Err(e) => Err(e),
        }
    }

    /// Decides on what the store answered when asked for the address of a
    /// registration: an account that is there stands in the way, a failure
    /// of the store is handed on, and only an address that nobody has lets
    /// the registration go on.
    pub fn ensure_unregistered(found: Result<Option<User>, DomainError>) -> (r: Result<
        (),
        DomainError,
    >)
        ensures
            match found {
                Ok(None) => r is Ok,
                Ok(Some(_)) => r matches Err(e) && e.is(
                    ErrorKind::AlreadyExists,
                    "Email already registered"@,
                ),
                Err(failure) => r == Err::<(), DomainError>(failure),
            },
    {
        match found {
            Ok(None) => Ok(()),
            Ok(Some(_)) => Err(DomainError::already_exists("Email already registered")),
            Err(failure) => Err(failure),
        }
    }

    /// Makes the account of a registration that passed its checks: the
    /// password is hashed, the role is `Member` unless one was asked for.
    /// The only failure is an internal error of the hashing.
    pub fn new_account(address: Email, cmd: CreateUserCommand) -> (r: Result<User, DomainError>)
        ensures
            match r {
                Ok(user) => user.email == address && user.name == cmd.name && user.role == (
                match cmd.role {
                    Some(role) => role,
                    None => UserRole::Member,
                }) && is_credential_of(user.password_hash@, cmd.password@)
                    && user.avatar_url is None && user.created_at == user.updated_at
                    && is_random_v4(user.id.0),
                Err(e) => e.is(ErrorKind::Internal, "Failed to hash password"@),
            },
    {
        let password_hash = match AuthService::hash_password(cmd.password.as_str()) {
            Ok(hash) => hash,
            Err(e) => {
                return Err(e);
            },
        };
        Ok(User::new(address, password_hash, cmd.name, cmd.role))
    }

    /// Opens an account: the address and the password are checked, the
    /// store is asked whether the address is taken, the password is hashed,
    /// and the new account is handed to the store, whose answer is the
    /// result.
    pub fn register(&self, cmd: CreateUserCommand) -> (r: Result<User, DomainError>)
        ensures
            registration_outcome(self.store(), cmd, r),
    {
        let address = match Self::check_registration(cmd.email.as_str(), cmd.password.as_str()) {
            Ok(address) => address,
            Err(e) => {
                return Err(e);
            },
        };
        let found = self.user_repository.find_by_email(address.as_str());
        match Self::ensure_unregistered(found) {
            Ok(_) => {},
            Err(e) => {
                return Err(e);
            },
        }
        let ghost request = cmd;
        let user = match Self::new_account(address, cmd) {
            Ok(user) => user,
            Err(e) => {
                return Err(e);
            },
        };
        let r = self.user_repository.create(&user);
        assert(self.store().answers_create(user, r) && is_account_of(user, request));
        r
    }

    /// Decides a login on what the store answered when asked for the
    /// address: the account, where there is one and the password is
    /// accepted for its credential. An address that nobody has and a
    /// password that is not accepted end in one and the same error.
    pub fn authenticate(found: Result<Option<User>, DomainError>, password: &str) -> (r: Result<
        User,
        DomainError,
    >)
        ensures
            match found {
                Ok(account) => match login_rejection(stored_credential(account), password@) {
                    None => r == Ok::<User, DomainError>(account->0),
                    Some((kind, message)) => r matches Err(e) && e.is(kind, message),
                },
                Err(failure) => r == Err::<User, DomainError>(failure),
            },
    {
        let user = match found {
            Ok(Some(user)) => user,
            Ok(None) => {
                return Err(DomainError::unauthorized("Invalid credentials"));
            },
            Err(failure) => {
                return Err(failure);
            },
        };
        match AuthService::verify_password(password, user.password_hash.as_str()) {
            Ok(true) => Ok(user),
            Ok(false) => Err(DomainError::unauthorized("Invalid credentials")),
            Err(e) => Err(e),
        }
    }

    /// Logs in: the store is asked for the address in lower case, the
    /// password is checked against the credential of the account, and a
    /// token is minted for the account.
    pub fn login(&self, cmd: LoginCommand) -> (r: Result<AuthResponse, DomainError>)
        ensures
            login_outcome(self.store(), self.jwt_secret(), self.jwt_expiration(), cmd, r),
    {
        let address = cmd.email.as_str().to_lowercase();
        let found = self.user_repository.find_by_email(address.as_str());
        let user = match Self::authenticate(found, cmd.password.as_str()) {
            Ok(user) => user,
            Err(e) => {
                return Err(e);
            },
        };
        let token = match self.generate_token(&user) {
            Ok(token) => token,
            Err(e) => {
                return Err(e);
            },
        };
        Ok(AuthResponse { token, user })
    }

    /// Mints the token of an account, valid for the service's number of
    /// seconds from the present moment.
    pub fn generate_token(&self, user: &User) -> (r: Result<String, DomainError>)
        ensures
            match r {
                Ok(token) => is_token_of(token, self.jwt_secret(), self.jwt_expiration(), *user),
                Err(e) => e.is(ErrorKind::Internal, "Failed to generate token"@),
            },
    {
        let r = self.tokens.mint(user.id, user.email.as_str(), user.role, self.jwt_expiration);
        proof {
            let now = choose|now: i64|
                now >= 0 && #[trigger] mint_result(
                    user.id,
                    user.email@,
                    user.role,
                    self.jwt_expiration,
                    now,
                    self.tokens.secret(),
                    r,
                );
            assert(mint_result(
                user.id,
                user.email@,
                user.role,
                self.jwt_expiration,
                now,
                self.tokens.secret(),
                r,
            ));
        }
        r
    }
}

/// A login for an address that nobody has and a login with a password that
/// is not accepted end in the same error, of the kind `Unauthorized`.
pub proof fn lemma_login_failures_look_alike(
    password: Seq<char>,
    other_password: Seq<char>,
    credential: Seq<char>,
)
    requires
        verification(other_password, credential) == Some(false),
    ensures
        login_rejection(None, password) == login_rejection(Some(credential), other_password),
        login_rejection(None, password) == Some((ErrorKind::Unauthorized, "Invalid credentials"@)),
{
}

/// The token of a login is validated to the identity of the account for as
/// long as the lifetime of tokens says, counted from some second of the
/// clock, and is turned down from then on.
pub proof fn lemma_login_token_validates(
    token: String,
    secret: Seq<char>,
    ttl_seconds: i64,
    user: User,
    checked_at: i64,
    r: Result<Claims, DomainError>,
)
    requires
        is_token_of(token, secret, ttl_seconds, user),
        validation_result(token@, secret, checked_at, r),
    ensures
        exists|minted_at: i64|
            minted_at >= 0 && #[trigger] mint_result(
                user.id,
                user.email@,
                user.role,
                ttl_seconds,
                minted_at,
                secret,
                Ok::<String, DomainError>(token),
            ) && (r is Ok <==> minted_at + ttl_seconds > checked_at),
        r matches Ok(claims) ==> claims.sub == user.id && claims.email@ == user.email@
            && claims.role == user.role,
{
    let minted_at = choose|now: i64|
        now >= 0 && #[trigger] mint_result(
            user.id,
            user.email@,
            user.role,
            ttl_seconds,
            now,
            secret,
            Ok::<String, DomainError>(token),
        );
    lemma_minted_token_round_trips(
        user.id,
        user.email@,
        user.role,
        ttl_seconds,
        minted_at,
        checked_at,
        secret,
        token,
        r,
    );
}

/// The password of a registration is accepted at a later login for the
/// credential that the registration made of it.
pub proof fn lemma_registered_password_logs_in(password: Seq<char>, credential: Seq<char>)
    requires
        is_credential_of(credential, password),
    ensures
        login_rejection(Some(credential), password) is None,
{
}

} // verus!

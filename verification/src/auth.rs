//! What the token store holds: the key made from an access token, the value
//! made from a user identity, and the credential row read at login.

use vstd::prelude::*;
use crate::error::{AppError, AppResult};
use crate::id::UserId;
use crate::model::{AccessToken, CreateToken};
use crate::password::{password_matches, verify_password};

verus! {

/// The stored credential of one account. The hash is the only secret that is
/// kept; the password itself never is.
#[derive(Debug)]
pub struct UserItem {
    pub user_id: UserId,
    pub password_hash: String,
}

/// The key under which a token is stored: the token's own text.
#[derive(Debug)]
pub struct AuthorizationKey(pub String);

/// The value stored under a token: the identity it resolves to.
#[derive(Clone, Copy, Debug, PartialEq, Eq, Structural)]
pub struct AuthorizedUserId(pub UserId);

impl View for AuthorizationKey {
    type V = Seq<char>;

    open spec fn view(&self) -> Seq<char> {
        self.0@
    }
}

/// Splits a token request into the key and the value to store.
pub fn from(event: CreateToken) -> (pair: (AuthorizationKey, AuthorizedUserId))
    ensures
        pair.0@ == event.access_token@,
        pair.1 == AuthorizedUserId(event.user_id),
{
    (AuthorizationKey(event.access_token), AuthorizedUserId(event.user_id))
}

impl From<AuthorizationKey> for AccessToken {
    fn from(value: AuthorizationKey) -> (token: AccessToken)
        ensures
            token@ == value@,
    {
        AccessToken(value.0)
    }
}

impl vstd::std_specs::convert::FromSpecImpl<AuthorizationKey> for AccessToken {
    open spec fn obeys_from_spec() -> bool {
        true
    }

    open spec fn from_spec(value: AuthorizationKey) -> AccessToken {
        AccessToken(value.0)
    }
}

impl From<AccessToken> for AuthorizationKey {
    fn from(value: AccessToken) -> (key: AuthorizationKey)
        ensures
            key@ == value@,
    {
        AuthorizationKey(value.0)
    }
}

impl vstd::std_specs::convert::FromSpecImpl<AccessToken> for AuthorizationKey {
    open spec fn obeys_from_spec() -> bool {
        true
    }

    open spec fn from_spec(value: AccessToken) -> AuthorizationKey {
        AuthorizationKey(value.0)
    }
}

impl AuthorizationKey {
    /// The key for a token that is only borrowed.
    pub fn from_ref(value: &AccessToken) -> (key: AuthorizationKey)
        ensures
            key@ == value@,
    {
        AuthorizationKey(value.0.clone())
    }

    /// The text that goes to the store as the key.
    pub fn inner(&self) -> (text: String)
        ensures
            text@ == self@,
    {
        self.0.clone()
    }
}

impl AuthorizedUserId {
    /// The text that goes to the store as the value.
    pub fn inner(&self) -> (text: String)
        ensures
            text@ == self.0.text(),
    {
        self.0.to_string()
    }

    /// Reads a stored value back. A text that denotes no identity is a
    /// conversion error.
    pub fn try_from(value: String) -> (parsed: AppResult<AuthorizedUserId>)
        ensures
            parsed == Self::parsed_or_error(UserId::parse(value@)),
            forall|id: UserId| value@ == id.text() ==> parsed == Ok::<AuthorizedUserId, AppError>(AuthorizedUserId(id)),
    {
        match UserId::from_str(value.as_str()) {
            Ok(id) => Ok(AuthorizedUserId(id)),
            Err(error) => Err(error),
        }
    }

    pub open spec fn parsed_or_error(parsed: Option<UserId>) -> AppResult<AuthorizedUserId> {
        match parsed {
            Some(id) => Ok(AuthorizedUserId(id)),
            None => Err(AppError::Conversion),
        }
    }

    pub fn into_inner(self) -> (id: UserId)
        ensures
            id == self.0,
    {
        self.0
    }
}

/// What a login attempt comes to, given the credential found for the email
/// and whether the password matches its hash. Every failure is the same
/// error: an unknown email, a wrong password and an unreadable hash cannot be
/// told apart by the caller.
pub open spec fn login_decision(found: Option<UserItem>, password: Seq<char>) -> AppResult<UserId> {
    match found {
        Some(item) => if password_matches(password, item.password_hash@) {
            Ok(item.user_id)
        } else {
            Err(AppError::AuthenticationFailed)
        },
        None => Err(AppError::AuthenticationFailed),
    }
}

/// Decides a login attempt from the credential that the directory found for
/// the submitted email, if any, and the submitted password.
pub fn check_credentials(found: Option<&UserItem>, password: &str) -> (decided: AppResult<UserId>)
    ensures
        decided == login_decision(
            match found { Some(item) => Some(*item), None => None },
            password@,
        ),
{
    match found {
        None => Err(AppError::AuthenticationFailed),
        Some(item) => match verify_password(password, item.password_hash.as_str()) {
            Ok(true) => Ok(item.user_id),
            Ok(false) => Err(AppError::AuthenticationFailed),
            Err(_) => Err(AppError::AuthenticationFailed),
        },
    }
}

/// A login that fails does so with one error, whatever the reason.
pub proof fn login_failures_are_uniform(found: Option<UserItem>, password: Seq<char>)
    ensures
        login_decision(found, password) is Err ==> login_decision(found, password)
            == Err::<UserId, AppError>(AppError::AuthenticationFailed),
        login_decision(None, password) == Err::<UserId, AppError>(AppError::AuthenticationFailed),
        found matches Some(item) && !password_matches(password, item.password_hash@)
            ==> login_decision(found, password) == login_decision(None, password),
{
}

} // verus!

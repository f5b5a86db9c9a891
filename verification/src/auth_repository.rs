//! The session service: login, logout and token introspection over the
//! token store and the user directory.

use vstd::prelude::*;
use crate::auth::{check_credentials, from, AuthorizationKey};
use crate::error::{AppError, AppResult};
use crate::id::UserId;
use crate::model::{AccessToken, CreateToken};
use crate::password::password_matches;
use crate::token_store::{TokenStore, TokenStoreView};
use crate::user_repository::{DirectoryView, UserRepositoryImpl};

verus! {

/// The session service as a mathematical value: the token store and the
/// lifetime that every token gets.
pub struct SessionsView {
    pub store: TokenStoreView,
    pub ttl: nat,
}

/// What checking an email and a password against the directory comes to:
/// the identity of the account, or one and the same error for an unknown
/// email and for a wrong password.
pub open spec fn verified_user(directory: DirectoryView, email: Seq<char>, password: Seq<char>) -> AppResult<
    UserId,
> {
    match directory.find_by_email(email) {
        Some(record) => if password_matches(password, record.password_hash) {
            Ok(record.row.user_id)
        } else {
            Err(AppError::AuthenticationFailed)
        },
        None => Err(AppError::AuthenticationFailed),
    }
}

/// Sessions over an in-memory token store. Every token gets the same
/// lifetime, fixed when the service is made.
pub struct AuthRepositoryImpl {
    tokens: TokenStore,
    ttl: u64,
}

impl View for AuthRepositoryImpl {
    type V = SessionsView;

    closed spec fn view(&self) -> SessionsView {
        SessionsView { store: self.tokens@, ttl: self.ttl as nat }
    }
}

impl AuthRepositoryImpl {
    pub closed spec fn wf(&self) -> bool {
        self.tokens.wf()
    }

    /// A service with no sessions, at time zero, whose tokens live `ttl`
    /// seconds.
    pub fn new(ttl: u64) -> (service: AuthRepositoryImpl)
        ensures
            service.wf(),
            service@ == (SessionsView { store: TokenStoreView::empty(), ttl: ttl as nat }),
    {
        AuthRepositoryImpl { tokens: TokenStore::new(), ttl }
    }

    /// The lifetime of every token, in seconds.
    pub fn ttl(&self) -> (ttl: u64)
        ensures
            ttl == self@.ttl,
    {
        self.ttl
    }

    /// Resolves a token to the identity it was issued for, or to `None`
    /// where it is unknown, revoked or expired. Extends no lifetime and
    /// applies no role policy.
    pub fn fetch_user_id_from_token(&self, access_token: &AccessToken) -> (resolved: AppResult<Option<UserId>>)
        requires
            self.wf(),
        ensures
            resolved == Ok::<Option<UserId>, AppError>(self@.store.resolve(access_token@)),
    {
        let key = AuthorizationKey::from_ref(access_token);
        match self.tokens.get(&key) {
            Some(value) => Ok(Some(value.into_inner())),
            None => Ok(None),
        }
    }

    /// Checks an email and a password against the directory. An unknown
    /// email, a wrong password and an unreadable stored hash all give the
    /// same error.
    pub fn verify_user(&self, users: &UserRepositoryImpl, email: &str, password: &str) -> (verified: AppResult<
        UserId,
    >)
        requires
            users.wf(),
        ensures
            verified == verified_user(users@, email@, password@),
    {
        let found = users.find_credential_by_email(email);
        match &found {
            Some(item) => check_credentials(Some(item), password),
            None => check_credentials(None, password),
        }
    }

    /// Stores the token of `event` for its user, with the service's
    /// lifetime, and hands the token back.
    pub fn create_token(&mut self, event: CreateToken) -> (issued: AppResult<AccessToken>)
        requires
            old(self).wf(),
        ensures
            final(self).wf(),
            issued is Ok,
            issued->Ok_0@ == event.access_token@,
            final(self)@.ttl == old(self)@.ttl,
            final(self)@.store == old(self)@.store.put(event.access_token@, event.user_id, old(self)@.ttl),
    {
        let (key, value) = from(event);
        self.tokens.put(&key, &value, self.ttl);
        Ok(AccessToken(key.0))
    }

    /// Revokes a token. Always succeeds, whether the token was valid or not.
    pub fn delete_token(&mut self, access_token: AccessToken) -> (revoked: AppResult<()>)
        requires
            old(self).wf(),
        ensures
            final(self).wf(),
            revoked == Ok::<(), AppError>(()),
            final(self)@.ttl == old(self)@.ttl,
            final(self)@.store == old(self)@.store.delete(access_token@),
    {
        let key = AuthorizationKey(access_token.0);
        self.tokens.delete(&key);
        Ok(())
    }

    /// Logs a user in: checks the credentials, mints a fresh token and
    /// stores it for the user. Which token is minted is not determined; that
    /// it has the shape of a minted token, and what the store holds after,
    /// is. A failed login stores nothing.
    pub fn login(&mut self, users: &UserRepositoryImpl, email: &str, password: &str) -> (issued: AppResult<
        AccessToken,
    >)
        requires
            old(self).wf(),
            users.wf(),
        ensures
            final(self).wf(),
            final(self)@.ttl == old(self)@.ttl,
            verified_user(users@, email@, password@) is Err ==> issued == Err::<AccessToken, AppError>(
                AppError::AuthenticationFailed,
            ) && final(self)@ == old(self)@,
            verified_user(users@, email@, password@) matches Ok(user) ==> issued is Ok
                && CreateToken::is_minted(issued->Ok_0@) && final(self)@.store == old(self)@.store.put(
                issued->Ok_0@,
                user,
                old(self)@.ttl,
            ),
    {
        match self.verify_user(users, email, password) {
            Ok(user_id) => self.create_token(CreateToken::new(user_id)),
            Err(error) => Err(error),
        }
    }

    /// Logs out: revokes the token. Logging out a token that is already
    /// invalid is no error.
    pub fn logout(&mut self, access_token: AccessToken) -> (revoked: AppResult<()>)
        requires
            old(self).wf(),
        ensures
            final(self).wf(),
            revoked == Ok::<(), AppError>(()),
            final(self)@.ttl == old(self)@.ttl,
            final(self)@.store == old(self)@.store.delete(access_token@),
    {
        self.delete_token(access_token)
    }

    /// Lets `seconds` pass on the store's clock. Returns `false`, and
    /// changes nothing, where the clock cannot count that far.
    pub fn advance(&mut self, seconds: u64) -> (advanced: bool)
        requires
            old(self).wf(),
        ensures
            final(self).wf(),
            final(self)@.ttl == old(self)@.ttl,
            advanced == (old(self)@.store.now + seconds <= u64::MAX),
            advanced ==> final(self)@.store == old(self)@.store.advance(seconds as nat),
            !advanced ==> final(self)@.store == old(self)@.store,
    {
        self.tokens.advance(seconds)
    }
}

/// An unknown email and a known email with a wrong password fail alike.
pub proof fn login_resists_enumeration(
    directory: DirectoryView,
    unknown: Seq<char>,
    known: Seq<char>,
    password: Seq<char>,
    wrong: Seq<char>,
)
    requires
        !directory.has_email(unknown),
        directory.find_by_email(known) matches Some(record) && !password_matches(
            wrong,
            record.password_hash,
        ),
    ensures
        verified_user(directory, unknown, password) == Err::<UserId, AppError>(
            AppError::AuthenticationFailed,
        ),
        verified_user(directory, known, wrong) == verified_user(directory, unknown, password),
{
}

} // verus!

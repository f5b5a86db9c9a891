//! Request-time authentication: from the `Authorization` header of a request to
//! the authenticated user behind it.

use vstd::prelude::*;
use crate::bearer::{bearer_header, bearer_payload, bearer_round_trip, bearer_token};
use crate::error::{AppError, AppResult};
use crate::id::UserId;
use crate::model::{minted_token_is_header_safe, AccessToken, CreateToken, Role, User, UserView};
use crate::registry::AppRegistry;
use crate::token_store::TokenStoreView;
use crate::user::lookup_of;
use crate::auth_repository::verified_user;
use crate::user_repository::{option_row, DirectoryView};

verus! {

/// The authenticated principal of one request: the token that was presented
/// and the profile it resolved to.
#[derive(Debug)]
pub struct AuthorizedUser {
    pub access_token: AccessToken,
    pub user: User,
}

pub struct AuthorizedUserView {
    pub access_token: Seq<char>,
    pub user: UserView,
}

impl View for AuthorizedUser {
    type V = AuthorizedUserView;

    open spec fn view(&self) -> AuthorizedUserView {
        AuthorizedUserView { access_token: self.access_token@, user: self.user@ }
    }
}

pub open spec fn principal_view(principal: AppResult<AuthorizedUser>) -> AppResult<AuthorizedUserView> {
    match principal {
        Ok(p) => Ok(p@),
        Err(error) => Err(error),
    }
}

pub open spec fn header_view(header: Option<&str>) -> Option<Seq<char>> {
    match header {
        Some(h) => Some(h@),
        None => None,
    }
}

/// The token that a request presents. A request with no header, or with one
/// under another scheme, presents none and is unauthorized.
pub open spec fn presented(header: Option<Seq<char>>) -> AppResult<Seq<char>> {
    match header {
        Some(h) => match bearer_payload(h) {
            Some(token) => Ok(token),
            None => Err(AppError::Unauthorized),
        },
        None => Err(AppError::Unauthorized),
    }
}

/// What authentication makes of a request, given the token store and the user
/// directory. A token that does not resolve is unauthorized, whether it is
/// unknown, revoked or expired. A token that resolves to an account that is
/// gone is unauthenticated.
pub open spec fn authorized(
    header: Option<Seq<char>>,
    store: TokenStoreView,
    directory: DirectoryView,
) -> AppResult<AuthorizedUserView> {
    match presented(header) {
        Err(error) => Err(error),
        Ok(token) => match store.resolve(token) {
            None => Err(AppError::Unauthorized),
            Some(user_id) => match lookup_of(option_row(directory.find(user_id))) {
                Err(error) => Err(error),
                Ok(None) => Err(AppError::Unauthenticated),
                Ok(Some(user)) => Ok(AuthorizedUserView { access_token: token, user }),
            },
        },
    }
}

/// The first step: the token in the header, or the rejection.
pub fn presented_token(header: Option<&str>) -> (token: AppResult<AccessToken>)
    ensures
        token matches Ok(t) ==> presented(header_view(header)) == Ok::<Seq<char>, AppError>(t@),
        token matches Err(error) ==> presented(header_view(header)) == Err::<Seq<char>, AppError>(error),
{
    match header {
        Some(value) => match bearer_token(value) {
            Some(token) => Ok(token),
            None => Err(AppError::Unauthorized),
        },
        None => Err(AppError::Unauthorized),
    }
}

/// The second step: the identity that the token resolved to, or the
/// rejection where it resolved to none.
pub fn resolved_identity(resolved: Option<UserId>) -> (identity: AppResult<UserId>)
    ensures
        identity == (match resolved {
            Some(id) => Ok::<UserId, AppError>(id),
            None => Err::<UserId, AppError>(AppError::Unauthorized),
        }),
{
    match resolved {
        Some(id) => Ok(id),
        None => Err(AppError::Unauthorized),
    }
}

impl AuthorizedUser {
    /// The last step: the principal for a token and the profile found for
    /// the identity it resolved to, or the rejection where none was found.
    pub fn new(access_token: AccessToken, found: Option<User>) -> (principal: AppResult<AuthorizedUser>)
        ensures
            found matches Some(user) ==> principal_view(principal) == Ok::<AuthorizedUserView, AppError>(
                AuthorizedUserView { access_token: access_token@, user: user@ },
            ),
            found is None ==> principal_view(principal) == Err::<AuthorizedUserView, AppError>(
                AppError::Unauthenticated,
            ),
    {
        match found {
            Some(user) => Ok(AuthorizedUser { access_token, user }),
            None => Err(AppError::Unauthenticated),
        }
    }

    pub open spec fn spec_id(&self) -> UserId {
        self.user.id
    }

    pub open spec fn spec_is_admin(&self) -> bool {
        self.user.role == Role::Admin
    }

    /// The identity of the principal.
    #[verifier::when_used_as_spec(spec_id)]
    pub fn id(&self) -> (id: UserId)
        ensures
            id == self.user.id,
    {
        self.user.id
    }

    /// Whether the principal has the privileged role.
    #[verifier::when_used_as_spec(spec_is_admin)]
    pub fn is_admin(&self) -> (admin: bool)
        ensures
            admin == (self.user.role == Role::Admin),
    {
        self.user.role == Role::Admin
    }

    /// Authenticates a request from the value of its `Authorization`
    /// header, if it has one. Decides nothing about what the principal may
    /// do: role checks are the handler's.
    pub fn from_request_parts(header: Option<&str>, registry: &AppRegistry) -> (principal: AppResult<
        AuthorizedUser,
    >)
        requires
            registry.wf(),
        ensures
            principal_view(principal) == authorized(
                header_view(header),
                registry@.sessions.store,
                registry@.users,
            ),
    {
        let access_token = match presented_token(header) {
            Ok(token) => token,
            Err(error) => { return Err(error); },
        };
        let resolved = match registry.auth_repository().fetch_user_id_from_token(&access_token) {
            Ok(resolved) => resolved,
            Err(error) => { return Err(error); },
        };
        let user_id = match resolved_identity(resolved) {
            Ok(id) => id,
            Err(error) => { return Err(error); },
        };
        let found = match registry.user_repository().find_current_user(user_id) {
            Ok(found) => found,
            Err(error) => { return Err(error); },
        };
        AuthorizedUser::new(access_token, found)
    }
}

/// After a login with the right password, the token that was issued
/// authenticates as the user who logged in: the principal has that user's
/// identity and the role that the directory holds for it. The lifetime of
/// tokens must not be zero.
pub proof fn login_then_authorize(
    directory: DirectoryView,
    store: TokenStoreView,
    email: Seq<char>,
    password: Seq<char>,
    token: Seq<char>,
    ttl: nat,
)
    requires
        directory.wf(),
        verified_user(directory, email, password) is Ok,
        CreateToken::is_minted(token),
        ttl > 0,
    ensures
        ({
            let user = verified_user(directory, email, password)->Ok_0;
            let principal = authorized(Some(bearer_header(token)), store.put(token, user, ttl), directory);
            &&& principal is Ok
            &&& principal->Ok_0.access_token == token
            &&& principal->Ok_0.user.id == user
            &&& directory.find(user) is Some
            &&& Role::parse(directory.find(user)->Some_0.row.role_name) == Some(principal->Ok_0.user.role)
        }),
{
    minted_token_is_header_safe(token);
    bearer_round_trip(token);
    let i = directory.index_of_email(email);
    let record = directory.records[i];
    assert(directory.has_id(record.row.user_id));
    assert(directory.index_of_id(record.row.user_id) == i);
}

/// A token that does not resolve is unauthorized, whatever the directory
/// holds.
pub proof fn unknown_token_is_unauthorized(
    header: Option<Seq<char>>,
    store: TokenStoreView,
    directory: DirectoryView,
)
    requires
        presented(header) matches Ok(token) ==> store.resolve(token) is None,
    ensures
        authorized(header, store, directory) == Err::<AuthorizedUserView, AppError>(AppError::Unauthorized),
{
}

/// A token that still resolves, for an account that was removed from the
/// directory, is unauthenticated.
pub proof fn removed_account_is_unauthenticated(
    directory: DirectoryView,
    store: TokenStoreView,
    header: Seq<char>,
    user_id: UserId,
)
    requires
        directory.wf(),
        directory.has_id(user_id),
        presented(Some(header)) matches Ok(token) && store.resolve(token) == Some(user_id),
    ensures
        authorized(Some(header), store, directory.remove(user_id)) == Err::<AuthorizedUserView, AppError>(
            AppError::Unauthenticated,
        ),
{
    let i = directory.index_of_id(user_id);
    let after = directory.remove(user_id);
    if after.has_id(user_id) {
        let k = after.index_of_id(user_id);
        let k0 = if k < i { k } else { k + 1 };
        assert(after.records[k] == directory.records[k0]);
    }
}

} // verus!

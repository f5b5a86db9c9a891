//! The domain values: roles, user profiles, access tokens, and the requests
//! that create or change them.

use vstd::prelude::*;
use crate::error::{AppError, AppResult};
use crate::id::{format_simple, is_lower_hex, simple_text_is_lower_hex, UserId};

verus! {

/// Whether two texts hold the same characters.
pub fn str_eq(a: &str, b: &str) -> (same: bool)
    ensures
        same == (a@ == b@),
{
    let left = a.to_owned();
    let right = b.to_owned();
    left == right
}

/// The privilege tier of an account. Compared for equality only.
#[derive(Clone, Copy, Debug, PartialEq, Eq, Structural)]
pub enum Role {
    Admin,
    User,
}

impl Role {
    /// The name under which the store keeps this role.
    pub open spec fn name(self) -> Seq<char> {
        match self {
            Role::Admin => "Admin"@,
            Role::User => "User"@,
        }
    }

    /// The role that a stored name denotes, if it denotes one.
    pub open spec fn parse(text: Seq<char>) -> Option<Role> {
        if text == "Admin"@ {
            Some(Role::Admin)
        } else if text == "User"@ {
            Some(Role::User)
        } else {
            None
        }
    }

    pub fn as_ref(&self) -> (name: &'static str)
        ensures
            name@ == self.name(),
    {
        match self {
            Role::Admin => "Admin",
            Role::User => "User",
        }
    }

    /// Reads a role from its stored name; any other text is a conversion
    /// error.
    pub fn from_str(text: &str) -> (parsed: AppResult<Role>)
        ensures
            parsed == (match Role::parse(text@) {
                Some(role) => Ok::<Role, AppError>(role),
                None => Err::<Role, AppError>(AppError::Conversion),
            }),
    {
        if str_eq(text, "Admin") {
            Ok(Role::Admin)
        } else if str_eq(text, "User") {
            Ok(Role::User)
        } else {
            Err(AppError::Conversion)
        }
    }
}

impl Default for Role {
    fn default() -> (role: Role)
        ensures
            role == Role::User,
    {
        Role::User
    }
}

/// A role's stored name reads back as that role.
pub proof fn role_name_round_trip(role: Role)
    ensures
        Role::parse(role.name()) == Some(role),
{
    reveal_strlit("Admin");
    reveal_strlit("User");
    assert("Admin"@.len() != "User"@.len());
}

/// A user profile as the rest of the service sees it.
#[derive(Debug)]
pub struct User {
    pub id: UserId,
    pub name: String,
    pub email: String,
    pub role: Role,
}

pub struct UserView {
    pub id: UserId,
    pub name: Seq<char>,
    pub email: Seq<char>,
    pub role: Role,
}

impl View for User {
    type V = UserView;

    open spec fn view(&self) -> UserView {
        UserView { id: self.id, name: self.name@, email: self.email@, role: self.role }
    }
}

impl Clone for User {
    fn clone(&self) -> (copy: User)
        ensures
            copy@ == self@,
    {
        User { id: self.id, name: self.name.clone(), email: self.email.clone(), role: self.role }
    }
}

/// Whether a text can stand behind `Bearer ` in a header and come back
/// unchanged: it is not empty and holds printable ASCII with no blanks.
pub open spec fn is_header_safe(text: Seq<char>) -> bool {
    &&& text.len() > 0
    &&& forall|i: int| 0 <= i < text.len() ==> '!' <= #[trigger] text[i] && text[i] <= '~'
}

/// An opaque capability that refers to one login. It carries no claims.
#[derive(Debug)]
pub struct AccessToken(pub String);

impl View for AccessToken {
    type V = Seq<char>;

    open spec fn view(&self) -> Seq<char> {
        self.0@
    }
}

impl Clone for AccessToken {
    fn clone(&self) -> (copy: AccessToken)
        ensures
            copy@ == self@,
    {
        AccessToken(self.0.clone())
    }
}

/// The request to issue a token for a user.
#[derive(Debug)]
pub struct CreateToken {
    pub user_id: UserId,
    pub access_token: String,
}

impl CreateToken {
    /// Whether `text` has the shape of a freshly minted token: thirty-two
    /// lower-case hexadecimal digits.
    pub open spec fn is_minted(text: Seq<char>) -> bool {
        &&& text.len() == 32
        &&& forall|i: int| 0 <= i < 32 ==> is_lower_hex(#[trigger] text[i])
    }

    /// Pairs the user with a token made from 128 fresh random bits. Which
    /// token comes out is not determined; its shape is.
    pub fn new(user_id: UserId) -> (event: CreateToken)
        ensures
            event.user_id == user_id,
            Self::is_minted(event.access_token@),
    {
        let seed = UserId::new();
        let access_token = format_simple(seed.raw());
        proof {
            simple_text_is_lower_hex(seed.0);
        }
        CreateToken { user_id, access_token }
    }
}

/// A minted token is safe to carry in a header.
pub proof fn minted_token_is_header_safe(text: Seq<char>)
    requires
        CreateToken::is_minted(text),
    ensures
        is_header_safe(text),
{
    assert forall|i: int| 0 <= i < text.len() implies '!' <= #[trigger] text[i] && text[i] <= '~' by {
        assert(is_lower_hex(text[i]));
    }
}

/// The request to register an account.
#[derive(Debug)]
pub struct CreateUser {
    pub name: String,
    pub email: String,
    pub password: String,
}

/// The request to replace an account's password.
#[derive(Debug)]
pub struct UpdateUserPassword {
    pub user_id: UserId,
    pub current_password: String,
    pub new_password: String,
}

/// The request to change an account's role.
#[derive(Debug)]
pub struct UpdateUserRole {
    pub user_id: UserId,
    pub role: Role,
}

/// The request to remove an account.
#[derive(Debug)]
pub struct DeleteUser {
    pub user_id: UserId,
}

} // verus!

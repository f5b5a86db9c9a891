//! User rows as the relational store returns them, and their conversion to
//! user profiles.

use vstd::prelude::*;
use crate::error::{AppError, AppResult};
use crate::id::UserId;
use crate::model::{Role, User, UserView};

verus! {

/// One row of the join of users and roles. The role comes as the name the
/// store keeps for it.
#[derive(Debug)]
pub struct UserRow {
    pub user_id: UserId,
    pub name: String,
    pub email: String,
    pub role_name: String,
}

pub struct UserRowView {
    pub user_id: UserId,
    pub name: Seq<char>,
    pub email: Seq<char>,
    pub role_name: Seq<char>,
}

impl View for UserRow {
    type V = UserRowView;

    open spec fn view(&self) -> UserRowView {
        UserRowView {
            user_id: self.user_id,
            name: self.name@,
            email: self.email@,
            role_name: self.role_name@,
        }
    }
}

impl Clone for UserRow {
    fn clone(&self) -> (copy: UserRow)
        ensures
            copy@ == self@,
    {
        UserRow {
            user_id: self.user_id,
            name: self.name.clone(),
            email: self.email.clone(),
            role_name: self.role_name.clone(),
        }
    }
}

impl UserRowView {
    /// The profile that this row stands for, where its role name is one the
    /// service knows.
    pub open spec fn profile(self) -> Option<UserView> {
        match Role::parse(self.role_name) {
            Some(role) => Some(UserView { id: self.user_id, name: self.name, email: self.email, role }),
            None => None,
        }
    }
}

/// The profiles of the rows that convert, in the order of the rows. A row
/// whose role name is unknown is left out.
pub open spec fn profiles(rows: Seq<UserRowView>) -> Seq<UserView>
    decreases rows.len(),
{
    if rows.len() == 0 {
        Seq::empty()
    } else {
        let front = profiles(rows.drop_last());
        match rows.last().profile() {
            Some(user) => front.push(user),
            None => front,
        }
    }
}

pub open spec fn row_views(rows: Seq<UserRow>) -> Seq<UserRowView> {
    rows.map_values(|row: UserRow| row@)
}

pub open spec fn user_views(users: Seq<User>) -> Seq<UserView> {
    users.map_values(|user: User| user@)
}

impl User {
    /// Converts a row to a profile. A role name that the service does not
    /// know is a conversion error.
    pub fn try_from(value: UserRow) -> (converted: AppResult<User>)
        ensures
            value@.profile() matches Some(user) ==> converted is Ok && converted->Ok_0@ == user,
            value@.profile() is None ==> converted == Err::<User, AppError>(AppError::Conversion),
    {
        let UserRow { user_id, name, email, role_name } = value;
        match Role::from_str(role_name.as_str()) {
            Ok(role) => Ok(User { id: user_id, name, email, role }),
            Err(error) => Err(error),
        }
    }
}

/// The view of what a lookup returns.
pub open spec fn lookup_view(found: AppResult<Option<User>>) -> AppResult<Option<UserView>> {
    match found {
        Ok(Some(user)) => Ok(Some(user@)),
        Ok(None) => Ok(None),
        Err(error) => Err(error),
    }
}

/// What a lookup of one user comes to, given the row that was found, if any:
/// no row is no user, and a row that does not convert is an error.
pub open spec fn lookup_of(row: Option<UserRowView>) -> AppResult<Option<UserView>> {
    match row {
        None => Ok(None),
        Some(r) => match r.profile() {
            Some(user) => Ok(Some(user)),
            None => Err(AppError::Conversion),
        },
    }
}

pub open spec fn option_row_view(row: Option<UserRow>) -> Option<UserRowView> {
    match row {
        Some(r) => Some(r@),
        None => None,
    }
}

/// What a lookup of one user returns, given the row that was found, if any.
pub fn user_from_row(row: Option<UserRow>) -> (found: AppResult<Option<User>>)
    ensures
        lookup_view(found) == lookup_of(option_row_view(row)),
{
    match row {
        Some(r) => match User::try_from(r) {
            Ok(user) => Ok(Some(user)),
            Err(error) => Err(error),
        },
        None => Ok(None),
    }
}

/// Converts the rows of a listing. Rows that do not convert are dropped
/// without failing the listing; the others keep their order.
pub fn users_from_rows(rows: Vec<UserRow>) -> (users: Vec<User>)
    ensures
        user_views(users@) == profiles(row_views(rows@)),
{
    let mut users: Vec<User> = Vec::new();
    let mut i: usize = 0;
    assert(row_views(rows@).take(0) =~= Seq::<UserRowView>::empty());
    while i < rows.len()
        invariant
            i <= rows@.len(),
            user_views(users@) == profiles(row_views(rows@).take(i as int)),
        decreases rows@.len() - i,
    {
        let ghost done = row_views(rows@).take(i as int);
        let ghost next = row_views(rows@).take(i + 1);
        assert(next.drop_last() =~= done);
        assert(next.last() == rows@[i as int]@);
        let ghost before = users@;
        match User::try_from(rows[i].clone()) {
            Ok(user) => {
                users.push(user);
                assert(user_views(users@) =~= user_views(before).push(user@));
            },
            Err(_) => {},
        }
        i = i + 1;
    }
    assert(row_views(rows@).take(rows@.len() as int) =~= row_views(rows@));
    users
}

/// Whether a mutating statement changed anything. One that touched no row
/// named an identity that does not exist.
pub fn require_rows_affected(rows_affected: u64) -> (checked: AppResult<()>)
    ensures
        checked == (if rows_affected < 1 {
            Err::<(), AppError>(AppError::EntityNotFound)
        } else {
            Ok::<(), AppError>(())
        }),
{
    if rows_affected < 1 {
        Err(AppError::EntityNotFound)
    } else {
        Ok(())
    }
}

/// Whether an insert stored its row. One that stored none was refused by
/// the store without an error of its own.
pub fn require_row_inserted(rows_affected: u64) -> (checked: AppResult<()>)
    ensures
        checked == (if rows_affected < 1 {
            Err::<(), AppError>(AppError::Persistence)
        } else {
            Ok::<(), AppError>(())
        }),
{
    if rows_affected < 1 {
        Err(AppError::Persistence)
    } else {
        Ok(())
    }
}

} // verus!

//! The user directory: profiles and credentials, looked up by identity or by
//! email, held in memory in the order in which the accounts were created.

use vstd::prelude::*;
use crate::auth::UserItem;
use crate::error::{AppError, AppResult};
use crate::id::UserId;
use crate::model::{CreateUser, DeleteUser, Role, UpdateUserPassword, UpdateUserRole, User, UserView};
use crate::password::{hash_password, is_fresh_hash, verification_result, verify_password};
use crate::user::{lookup_of, lookup_view, profiles, user_from_row, user_views, users_from_rows, UserRow, UserRowView};

verus! {

/// One stored account: the row of its profile and the hash of its password.
pub struct UserRecordView {
    pub row: UserRowView,
    pub password_hash: Seq<char>,
}

/// The directory as a mathematical value: the stored accounts, oldest first.
pub struct DirectoryView {
    pub records: Seq<UserRecordView>,
}

impl DirectoryView {
    pub open spec fn has_id(self, id: UserId) -> bool {
        exists|i: int| 0 <= i < self.records.len() && (#[trigger] self.records[i]).row.user_id == id
    }

    pub open spec fn index_of_id(self, id: UserId) -> int {
        choose|i: int| 0 <= i < self.records.len() && (#[trigger] self.records[i]).row.user_id == id
    }

    pub open spec fn has_email(self, email: Seq<char>) -> bool {
        exists|i: int| 0 <= i < self.records.len() && (#[trigger] self.records[i]).row.email == email
    }

    pub open spec fn index_of_email(self, email: Seq<char>) -> int {
        choose|i: int| 0 <= i < self.records.len() && (#[trigger] self.records[i]).row.email == email
    }

    /// No identity and no email occurs twice, and every stored role name is
    /// one the service knows.
    pub open spec fn wf(self) -> bool {
        &&& forall|i: int, j: int|
            0 <= i < self.records.len() && 0 <= j < self.records.len() && i != j ==> (
                #[trigger] self.records[i]).row.user_id != (#[trigger] self.records[j]).row.user_id
        &&& forall|i: int, j: int|
            0 <= i < self.records.len() && 0 <= j < self.records.len() && i != j ==> (
                #[trigger] self.records[i]).row.email != (#[trigger] self.records[j]).row.email
        &&& forall|i: int|
            0 <= i < self.records.len() ==> Role::parse((#[trigger] self.records[i]).row.role_name)
                is Some
    }

    /// The account with this identity, if there is one.
    pub open spec fn find(self, id: UserId) -> Option<UserRecordView> {
        if self.has_id(id) {
            Some(self.records[self.index_of_id(id)])
        } else {
            None
        }
    }

    /// The account with this email, if there is one.
    pub open spec fn find_by_email(self, email: Seq<char>) -> Option<UserRecordView> {
        if self.has_email(email) {
            Some(self.records[self.index_of_email(email)])
        } else {
            None
        }
    }

    /// The directory with one more account, added as the newest.
    pub open spec fn insert(self, record: UserRecordView) -> DirectoryView {
        DirectoryView { records: self.records.push(record) }
    }

    /// The directory with the role of account `id` replaced.
    pub open spec fn set_role(self, id: UserId, role: Role) -> DirectoryView {
        let i = self.index_of_id(id);
        let old = self.records[i];
        DirectoryView {
            records: self.records.update(
                i,
                UserRecordView {
                    row: UserRowView { role_name: role.name(), ..old.row },
                    password_hash: old.password_hash,
                },
            ),
        }
    }

    /// The directory with the password hash of account `id` replaced.
    pub open spec fn set_password_hash(self, id: UserId, hash: Seq<char>) -> DirectoryView {
        let i = self.index_of_id(id);
        DirectoryView {
            records: self.records.update(
                i,
                UserRecordView { row: self.records[i].row, password_hash: hash },
            ),
        }
    }

    /// The directory without account `id`.
    pub open spec fn remove(self, id: UserId) -> DirectoryView {
        DirectoryView { records: self.records.remove(self.index_of_id(id)) }
    }

    /// The rows of all accounts, newest first.
    pub open spec fn rows_newest_first(self) -> Seq<UserRowView> {
        Seq::new(self.records.len(), |i: int| self.records[self.records.len() - 1 - i].row)
    }
}

pub open spec fn option_row(record: Option<UserRecordView>) -> Option<UserRowView> {
    match record {
        Some(r) => Some(r.row),
        None => None,
    }
}

/// The credential of a stored account, as the login step reads it.
pub open spec fn credential_matches(item: Option<UserItem>, record: Option<UserRecordView>) -> bool {
    match (item, record) {
        (Some(i), Some(r)) => i.user_id == r.row.user_id && i.password_hash@ == r.password_hash,
        (None, None) => true,
        _ => false,
    }
}

struct UserRecord {
    row: UserRow,
    password_hash: String,
}

impl View for UserRecord {
    type V = UserRecordView;

    closed spec fn view(&self) -> UserRecordView {
        UserRecordView { row: self.row@, password_hash: self.password_hash@ }
    }
}

/// The user directory, held in memory.
pub struct UserRepositoryImpl {
    records: Vec<UserRecord>,
}

impl View for UserRepositoryImpl {
    type V = DirectoryView;

    closed spec fn view(&self) -> DirectoryView {
        DirectoryView { records: self.records@.map_values(|record: UserRecord| record@) }
    }
}

impl UserRepositoryImpl {
    /// Whether the directory is well formed, as its model says.
    pub open spec fn wf(&self) -> bool {
        self@.wf()
    }

    /// An empty directory.
    pub fn new() -> (directory: UserRepositoryImpl)
        ensures
            directory.wf(),
            directory@.records.len() == 0,
    {
        UserRepositoryImpl { records: Vec::new() }
    }

    fn position_of_id(&self, id: UserId) -> (found: Option<usize>)
        requires
            self.wf(),
        ensures
            found matches Some(i) ==> i < self.records@.len() && self@.has_id(id)
                && self@.index_of_id(id) == i,
            found is None ==> !self@.has_id(id),
    {
        let mut i: usize = 0;
        while i < self.records.len()
            invariant
                self.wf(),
                i <= self.records@.len(),
                forall|k: int| 0 <= k < i ==> (#[trigger] self@.records[k]).row.user_id != id,
            decreases self.records@.len() - i,
        {
            if self.records[i].row.user_id == id {
                assert(self@.records[i as int].row.user_id == id);
                return Some(i);
            }
            i = i + 1;
        }
        None
    }

    fn position_of_email(&self, email: &str) -> (found: Option<usize>)
        requires
            self.wf(),
        ensures
            found matches Some(i) ==> i < self.records@.len() && self@.has_email(email@)
                && self@.index_of_email(email@) == i,
            found is None ==> !self@.has_email(email@),
    {
        let wanted = email.to_owned();
        let mut i: usize = 0;
        while i < self.records.len()
            invariant
                self.wf(),
                i <= self.records@.len(),
                wanted@ == email@,
                forall|k: int| 0 <= k < i ==> (#[trigger] self@.records[k]).row.email != email@,
            decreases self.records@.len() - i,
        {
            if self.records[i].row.email == wanted {
                assert(self@.records[i as int].row.email == email@);
                return Some(i);
            }
            i = i + 1;
        }
        None
    }

    /// The profile of the user with this identity. No such user is `None`,
    /// not an error.
    pub fn find_current_user(&self, current_user_id: UserId) -> (found: AppResult<Option<User>>)
        requires
            self.wf(),
        ensures
            lookup_view(found) == lookup_of(option_row(self@.find(current_user_id))),
            found is Ok,
    {
        let row = match self.position_of_id(current_user_id) {
            Some(i) => Some(self.records[i].row.clone()),
            None => None,
        };
        user_from_row(row)
    }

    /// The stored credential of the user with this identity, if there is one.
    /// Kept inside the library: a password hash leaves it nowhere.
    pub(crate) fn find_credential(&self, id: UserId) -> (found: Option<UserItem>)
        requires
            self.wf(),
        ensures
            credential_matches(found, self@.find(id)),
    {
        match self.position_of_id(id) {
            Some(i) => Some(UserItem { user_id: id, password_hash: self.records[i].password_hash.clone() }),
            None => None,
        }
    }

    /// The stored credential of the user with this email, if there is one.
    /// Kept inside the library, for the login step.
    pub(crate) fn find_credential_by_email(&self, email: &str) -> (found: Option<UserItem>)
        requires
            self.wf(),
        ensures
            credential_matches(found, self@.find_by_email(email@)),
    {
        match self.position_of_email(email) {
            Some(i) => Some(UserItem {
                user_id: self.records[i].row.user_id,
                password_hash: self.records[i].password_hash.clone(),
            }),
            None => None,
        }
    }

    /// The profiles of all users, newest first.
    pub fn find_all(&self) -> (listed: AppResult<Vec<User>>)
        requires
            self.wf(),
        ensures
            listed is Ok,
            user_views(listed->Ok_0@) == profiles(self@.rows_newest_first()),
    {
        let mut rows: Vec<UserRow> = Vec::new();
        let n: usize = self.records.len();
        let mut i: usize = n;
        while i > 0
            invariant
                i <= n,
                n == self.records@.len(),
                rows@.len() == n - i,
                forall|k: int| 0 <= k < rows@.len() ==> (#[trigger] rows@[k])@ == self@.records[n - 1 - k].row,
            decreases i,
        {
            i = i - 1;
            rows.push(self.records[i].row.clone());
        }
        assert(crate::user::row_views(rows@) =~= self@.rows_newest_first());
        Ok(users_from_rows(rows))
    }
}

} // verus!

verus! {

/// The record of a freshly registered account: it starts with the role
/// `User`.
pub open spec fn new_record(
    user_id: UserId,
    name: Seq<char>,
    email: Seq<char>,
    password_hash: Seq<char>,
) -> UserRecordView {
    UserRecordView {
        row: UserRowView { user_id, name, email, role_name: Role::User.name() },
        password_hash,
    }
}

/// What a change of password comes to before anything is written, given how
/// the current password verifies against the stored hash. A stored hash that
/// cannot be read is a hashing error; a current password that does not match
/// is a failed authentication; with a match the new password is hashed, and
/// only that can still fail.
pub open spec fn replacement_allowed(
    checked: AppResult<bool>,
    new_password: Seq<char>,
    replacement: AppResult<String>,
) -> bool {
    match checked {
        Err(_) => replacement == Err::<String, AppError>(AppError::Hashing),
        Ok(false) => replacement == Err::<String, AppError>(AppError::AuthenticationFailed),
        Ok(true) => match replacement {
            Ok(hash) => is_fresh_hash(new_password, hash@),
            Err(error) => error == AppError::Hashing,
        },
    }
}

/// Decides a change of password from the stored hash: checks the current
/// password and, where it matches, hashes the new one.
pub fn replacement_hash(stored_hash: &str, event: &UpdateUserPassword) -> (replacement: AppResult<String>)
    ensures
        replacement_allowed(
            verification_result(event.current_password@, stored_hash@),
            event.new_password@,
            replacement,
        ),
{
    match verify_password(event.current_password.as_str(), stored_hash) {
        Err(_) => Err(AppError::Hashing),
        Ok(false) => Err(AppError::AuthenticationFailed),
        Ok(true) => hash_password(event.new_password.as_str()),
    }
}

/// The credential that a change reads first. An identity with no account is
/// an entity-not-found error.
pub fn found_credential(found: Option<UserItem>) -> (credential: AppResult<UserItem>)
    ensures
        found matches Some(item) ==> credential == Ok::<UserItem, AppError>(item),
        found is None ==> credential == Err::<UserItem, AppError>(AppError::EntityNotFound),
{
    match found {
        Some(item) => Ok(item),
        None => Err(AppError::EntityNotFound),
    }
}

impl UserRepositoryImpl {
    /// Stores a new account under an identity and a password hash that the
    /// caller made. An email that is taken is a duplicate-email error; an
    /// identity that is taken is a persistence error; either leaves the
    /// directory as it was.
    pub fn register(
        &mut self,
        user_id: UserId,
        name: String,
        email: String,
        password_hash: String,
    ) -> (created: AppResult<User>)
        requires
            old(self).wf(),
        ensures
            final(self).wf(),
            old(self)@.has_email(email@) ==> created == Err::<User, AppError>(AppError::DuplicateEmail)
                && final(self)@ == old(self)@,
            !old(self)@.has_email(email@) && old(self)@.has_id(user_id) ==> created == Err::<
                User,
                AppError,
            >(AppError::Persistence) && final(self)@ == old(self)@,
            !old(self)@.has_email(email@) && !old(self)@.has_id(user_id) ==> created is Ok
                && created->Ok_0@ == (UserView { id: user_id, name: name@, email: email@, role: Role::User })
                && final(self)@ == old(self)@.insert(new_record(user_id, name@, email@, password_hash@)),
    {
        if self.position_of_email(email.as_str()).is_some() {
            return Err(AppError::DuplicateEmail);
        }
        if self.position_of_id(user_id).is_some() {
            return Err(AppError::Persistence);
        }
        let role = Role::User;
        let row = UserRow {
            user_id,
            name: name.clone(),
            email: email.clone(),
            role_name: role.as_ref().to_owned(),
        };
        let ghost before = self@;
        self.records.push(UserRecord { row, password_hash });
        proof {
            crate::model::role_name_round_trip(Role::User);
            assert(self@.records =~= before.records.push(new_record(user_id, name@, email@, password_hash@)));
        }
        Ok(User { id: user_id, name, email, role })
    }

    /// Registers an account: draws a fresh identity, hashes the password and
    /// stores the account with the role `User`. The stored hash verifies
    /// against the password that was given. A failure leaves the directory as
    /// it was.
    pub fn create(&mut self, event: CreateUser) -> (created: AppResult<User>)
        requires
            old(self).wf(),
        ensures
            final(self).wf(),
            created matches Ok(user) ==> {
                &&& user@.name == event.name@
                &&& user@.email == event.email@
                &&& user@.role == Role::User
                &&& !old(self)@.has_email(event.email@)
                &&& !old(self)@.has_id(user@.id)
                &&& final(self)@.records.len() == old(self)@.records.len() + 1
                &&& final(self)@.records.drop_last() == old(self)@.records
                &&& final(self)@.records.last().row == new_record(
                    user@.id,
                    event.name@,
                    event.email@,
                    final(self)@.records.last().password_hash,
                ).row
                &&& is_fresh_hash(event.password@, final(self)@.records.last().password_hash)
            },
            created matches Err(error) ==> {
                &&& final(self)@ == old(self)@
                &&& error == AppError::Hashing || error == AppError::DuplicateEmail || error
                    == AppError::Persistence
                &&& error == AppError::DuplicateEmail ==> old(self)@.has_email(event.email@)
                &&& old(self)@.has_email(event.email@) ==> error != AppError::Persistence
            },
    {
        let user_id = UserId::new();
        let hashed_password = match hash_password(event.password.as_str()) {
            Ok(hash) => hash,
            Err(error) => {
                return Err(error);
            },
        };
        let ghost before = self@;
        let ghost hash_text = hashed_password@;
        let created = self.register(user_id, event.name, event.email, hashed_password);
        proof {
            if created is Ok {
                let record = new_record(user_id, event.name@, event.email@, hash_text);
                assert(self@.records.drop_last() =~= before.records);
                assert(self@.records.last() == record);
            }
        }
        created
    }

    /// Replaces the role of an account. An identity that does not exist is
    /// an entity-not-found error.
    pub fn update_role(&mut self, event: UpdateUserRole) -> (updated: AppResult<()>)
        requires
            old(self).wf(),
        ensures
            final(self).wf(),
            !old(self)@.has_id(event.user_id) ==> updated == Err::<(), AppError>(AppError::EntityNotFound)
                && final(self)@ == old(self)@,
            old(self)@.has_id(event.user_id) ==> updated == Ok::<(), AppError>(()) && final(self)@
                == old(self)@.set_role(event.user_id, event.role),
    {
        match self.position_of_id(event.user_id) {
            None => Err(AppError::EntityNotFound),
            Some(i) => {
                let ghost before = self@;
                let row = UserRow {
                    user_id: self.records[i].row.user_id,
                    name: self.records[i].row.name.clone(),
                    email: self.records[i].row.email.clone(),
                    role_name: event.role.as_ref().to_owned(),
                };
                let password_hash = self.records[i].password_hash.clone();
                self.records.set(i, UserRecord { row, password_hash });
                proof {
                    crate::model::role_name_round_trip(event.role);
                    assert(self@.records =~= before.set_role(event.user_id, event.role).records);
                    Self::update_keeps_wf(before, self@, i as int);
                }
                Ok(())
            },
        }
    }

    /// Replaces the password of an account after checking the current one.
    /// An identity that does not exist is an entity-not-found error, a stored
    /// hash that cannot be read a hashing error, a wrong current password a
    /// failed authentication. With the right current password the change is
    /// made unless hashing the new one fails. A failure changes nothing; a
    /// success changes the hash of that account and nothing else.
    pub fn update_password(&mut self, event: UpdateUserPassword) -> (updated: AppResult<()>)
        requires
            old(self).wf(),
        ensures
            final(self).wf(),
            updated is Err ==> final(self)@ == old(self)@,
            match old(self)@.find(event.user_id) {
                None => updated == Err::<(), AppError>(AppError::EntityNotFound),
                Some(record) => match verification_result(event.current_password@, record.password_hash) {
                    Err(_) => updated == Err::<(), AppError>(AppError::Hashing),
                    Ok(false) => updated == Err::<(), AppError>(AppError::AuthenticationFailed),
                    Ok(true) => updated matches Err(error) ==> error == AppError::Hashing,
                },
            },
            updated is Ok ==> {
                &&& final(self)@.find(event.user_id) is Some
                &&& is_fresh_hash(
                    event.new_password@,
                    final(self)@.find(event.user_id)->Some_0.password_hash,
                )
                &&& final(self)@ == old(self)@.set_password_hash(
                    event.user_id,
                    final(self)@.find(event.user_id)->Some_0.password_hash,
                )
            },
    {
        let stored = match found_credential(self.find_credential(event.user_id)) {
            Ok(item) => item,
            Err(error) => {
                return Err(error);
            },
        };
        let new_password_hash = match replacement_hash(stored.password_hash.as_str(), &event) {
            Ok(hash) => hash,
            Err(error) => {
                return Err(error);
            },
        };
        match self.position_of_id(event.user_id) {
            None => Err(AppError::EntityNotFound),
            Some(i) => {
                let ghost before = self@;
                let ghost hash_text = new_password_hash@;
                let row = self.records[i].row.clone();
                self.records.set(i, UserRecord { row, password_hash: new_password_hash });
                proof {
                    assert(self@.records =~= before.set_password_hash(event.user_id, hash_text).records);
                    Self::update_keeps_wf(before, self@, i as int);
                    assert(self@.records[i as int].row.user_id == event.user_id);
                    assert(self@.has_id(event.user_id));
                    assert(self@.index_of_id(event.user_id) == i);
                }
                Ok(())
            },
        }
    }

    /// Removes an account. An identity that does not exist is an
    /// entity-not-found error.
    pub fn delete(&mut self, event: DeleteUser) -> (deleted: AppResult<()>)
        requires
            old(self).wf(),
        ensures
            final(self).wf(),
            !old(self)@.has_id(event.user_id) ==> deleted == Err::<(), AppError>(AppError::EntityNotFound)
                && final(self)@ == old(self)@,
            old(self)@.has_id(event.user_id) ==> deleted == Ok::<(), AppError>(()) && final(self)@
                == old(self)@.remove(event.user_id) && !final(self)@.has_id(event.user_id),
    {
        match self.position_of_id(event.user_id) {
            None => Err(AppError::EntityNotFound),
            Some(i) => {
                let ghost before = self@;
                self.records.remove(i);
                proof {
                    let after = self@;
                    assert(after.records =~= before.records.remove(i as int));
                    assert forall|k: int| 0 <= k < after.records.len() implies #[trigger] after.records[k]
                        == before.records[if k < i { k } else { k + 1 }] by {}
                    assert(after.wf()) by {
                        assert forall|a: int, b: int|
                            0 <= a < after.records.len() && 0 <= b < after.records.len() && a != b
                            implies (#[trigger] after.records[a]).row.user_id != (
                        #[trigger] after.records[b]).row.user_id && after.records[a].row.email
                            != after.records[b].row.email by {
                            let a0 = if a < i { a } else { a + 1 };
                            let b0 = if b < i { b } else { b + 1 };
                            assert(after.records[a] == before.records[a0]);
                            assert(after.records[b] == before.records[b0]);
                        }
                        assert forall|k: int| 0 <= k < after.records.len() implies Role::parse(
                            (#[trigger] after.records[k]).row.role_name,
                        ) is Some by {
                            let k0 = if k < i { k } else { k + 1 };
                            assert(after.records[k] == before.records[k0]);
                        }
                    }
                    if after.has_id(event.user_id) {
                        let k = after.index_of_id(event.user_id);
                        let k0 = if k < i { k } else { k + 1 };
                        assert(after.records[k] == before.records[k0]);
                        assert(before.records[i as int].row.user_id == event.user_id);
                    }
                }
                Ok(())
            },
        }
    }

    proof fn update_keeps_wf(before: DirectoryView, after: DirectoryView, i: int)
        requires
            before.wf(),
            0 <= i < before.records.len(),
            after.records.len() == before.records.len(),
            forall|k: int| 0 <= k < before.records.len() && k != i ==> after.records[k] == before.records[k],
            after.records[i].row.user_id == before.records[i].row.user_id,
            after.records[i].row.email == before.records[i].row.email,
            Role::parse(after.records[i].row.role_name) is Some,
        ensures
            after.wf(),
    {
        assert forall|a: int, b: int|
            0 <= a < after.records.len() && 0 <= b < after.records.len() && a != b implies (
        #[trigger] after.records[a]).row.user_id != (#[trigger] after.records[b]).row.user_id
            && after.records[a].row.email != after.records[b].row.email by {
            assert(after.records[a].row.user_id == before.records[a].row.user_id);
            assert(after.records[b].row.user_id == before.records[b].row.user_id);
            assert(after.records[a].row.email == before.records[a].row.email);
            assert(after.records[b].row.email == before.records[b].row.email);
        }
        assert forall|k: int| 0 <= k < after.records.len() implies Role::parse(
            (#[trigger] after.records[k]).row.role_name,
        ) is Some by {
            if k != i {
                assert(after.records[k] == before.records[k]);
            }
        }
    }
}

/// After a role update the account shows the new role, keeps its name,
/// email and password hash, and every other account is as it was. Updating
/// to the same role again changes nothing more.
pub proof fn role_update_shows(directory: DirectoryView, id: UserId, role: Role)
    requires
        directory.wf(),
        directory.has_id(id),
    ensures
        ({
            let after = directory.set_role(id, role);
            let before = directory.find(id)->Some_0;
            &&& after.wf()
            &&& after.find(id) is Some
            &&& after.find(id)->Some_0.row.profile() == Some(
                UserView { id, name: before.row.name, email: before.row.email, role },
            )
            &&& after.find(id)->Some_0.password_hash == before.password_hash
            &&& forall|other: UserId| other != id ==> after.find(other) == directory.find(other)
            &&& after.set_role(id, role) == after
        }),
{
    let i = directory.index_of_id(id);
    let after = directory.set_role(id, role);
    crate::model::role_name_round_trip(role);
    UserRepositoryImpl::update_keeps_wf(directory, after, i);
    assert(after.records[i].row.user_id == id);
    assert(after.has_id(id));
    assert(after.index_of_id(id) == i);
    assert forall|other: UserId| other != id implies after.find(other) == directory.find(other) by {
        if directory.has_id(other) {
            let k = directory.index_of_id(other);
            assert(after.records[k] == directory.records[k]);
            assert(after.has_id(other));
            assert(after.index_of_id(other) == k);
        }
        if after.has_id(other) {
            let k = after.index_of_id(other);
            assert(directory.records[k] == after.records[k]);
            assert(directory.has_id(other));
        }
    }
    assert(after.set_role(id, role).records =~= after.records);
}

/// After a password change the account keeps its profile, and every other
/// account is as it was.
pub proof fn password_update_keeps_profiles(directory: DirectoryView, id: UserId, hash: Seq<char>)
    requires
        directory.wf(),
        directory.has_id(id),
    ensures
        ({
            let after = directory.set_password_hash(id, hash);
            &&& after.wf()
            &&& after.find(id) is Some
            &&& after.find(id)->Some_0.row == directory.find(id)->Some_0.row
            &&& after.find(id)->Some_0.password_hash == hash
            &&& forall|other: UserId| other != id ==> after.find(other) == directory.find(other)
        }),
{
    let i = directory.index_of_id(id);
    let after = directory.set_password_hash(id, hash);
    UserRepositoryImpl::update_keeps_wf(directory, after, i);
    assert(after.records[i].row.user_id == id);
    assert(after.has_id(id));
    assert(after.index_of_id(id) == i);
    assert forall|other: UserId| other != id implies after.find(other) == directory.find(other) by {
        if directory.has_id(other) {
            let k = directory.index_of_id(other);
            assert(after.records[k] == directory.records[k]);
            assert(after.has_id(other));
            assert(after.index_of_id(other) == k);
        }
        if after.has_id(other) {
            let k = after.index_of_id(other);
            assert(directory.records[k] == after.records[k]);
            assert(directory.has_id(other));
        }
    }
}

} // verus!

use authcore::auth::{AuthorizationKey, AuthorizedUserId};
use authcore::error::AppError;
use authcore::id::UserId;
use authcore::model::{CreateUser, DeleteUser, Role, UpdateUserPassword, UpdateUserRole};
use authcore::auth_repository::AuthRepositoryImpl;
use authcore::token_store::TokenStore;
use authcore::auth::UserItem;
use authcore::error::StoreFailure;
use authcore::user::{require_row_inserted, require_rows_affected, user_from_row, users_from_rows, UserRow};
use authcore::user_repository::{found_credential, replacement_hash, UserRepositoryImpl};
use authcore::model::User;

fn key(text: &str) -> AuthorizationKey {
    AuthorizationKey(String::from(text))
}

fn row(id: u128, name: &str, email: &str, role_name: &str) -> UserRow {
    UserRow {
        user_id: UserId(id),
        name: String::from(name),
        email: String::from(email),
        role_name: String::from(role_name),
    }
}

fn weak_hash(password: &str) -> String {
    bcrypt::hash(password, 4).unwrap()
}

fn verifies(users: &UserRepositoryImpl, email: &str, password: &str) -> Result<UserId, AppError> {
    AuthRepositoryImpl::new(60).verify_user(users, email, password)
}

fn directory_of_two() -> UserRepositoryImpl {
    let mut users = UserRepositoryImpl::new();
    users
        .register(UserId(1), String::from("Ann"), String::from("ann@x.com"), weak_hash("pw-ann"))
        .unwrap();
    users
        .register(UserId(2), String::from("Bob"), String::from("bob@x.com"), weak_hash("pw-bob"))
        .unwrap();
    users
}

#[test]
fn stored_token_resolves_at_once() {
    let mut store = TokenStore::new();
    store.put(&key("t"), &AuthorizedUserId(UserId(7)), 60);
    assert_eq!(store.get(&key("t")), Some(AuthorizedUserId(UserId(7))));
    assert_eq!(store.get(&key("u")), None);
    assert_eq!(store.now(), 0);
}

#[test]
fn token_expires_when_its_lifetime_has_passed() {
    let mut store = TokenStore::new();
    store.put(&key("t"), &AuthorizedUserId(UserId(7)), 60);
    assert!(store.advance(59));
    assert_eq!(store.get(&key("t")), Some(AuthorizedUserId(UserId(7))));
    assert!(store.advance(1));
    assert_eq!(store.now(), 60);
    assert_eq!(store.get(&key("t")), None);
    assert!(store.advance(1000));
    assert_eq!(store.get(&key("t")), None);
}

#[test]
fn reading_extends_no_lifetime() {
    let mut store = TokenStore::new();
    store.put(&key("t"), &AuthorizedUserId(UserId(7)), 10);
    assert!(store.advance(9));
    assert_eq!(store.get(&key("t")), Some(AuthorizedUserId(UserId(7))));
    assert_eq!(store.get(&key("t")), Some(AuthorizedUserId(UserId(7))));
    assert!(store.advance(1));
    assert_eq!(store.get(&key("t")), None);
}

#[test]
fn zero_lifetime_never_resolves() {
    let mut store = TokenStore::new();
    store.put(&key("t"), &AuthorizedUserId(UserId(7)), 0);
    assert_eq!(store.get(&key("t")), None);
}

#[test]
fn deleted_token_does_not_resolve() {
    let mut store = TokenStore::new();
    store.put(&key("t"), &AuthorizedUserId(UserId(7)), 60);
    store.put(&key("u"), &AuthorizedUserId(UserId(8)), 60);
    store.delete(&key("t"));
    assert_eq!(store.get(&key("t")), None);
    assert_eq!(store.get(&key("u")), Some(AuthorizedUserId(UserId(8))));
}

#[test]
fn delete_twice_and_delete_of_unknown_token_do_nothing() {
    let mut store = TokenStore::new();
    store.delete(&key("never"));
    store.put(&key("t"), &AuthorizedUserId(UserId(7)), 60);
    store.delete(&key("t"));
    store.delete(&key("t"));
    store.delete(&key("never"));
    assert_eq!(store.get(&key("t")), None);
}

#[test]
fn writing_a_token_again_replaces_its_entry() {
    let mut store = TokenStore::new();
    store.put(&key("t"), &AuthorizedUserId(UserId(7)), 10);
    store.put(&key("u"), &AuthorizedUserId(UserId(9)), 10);
    assert!(store.advance(5));
    store.put(&key("t"), &AuthorizedUserId(UserId(8)), 10);
    assert_eq!(store.get(&key("t")), Some(AuthorizedUserId(UserId(8))));
    assert!(store.advance(5));
    assert_eq!(store.get(&key("u")), None);
    assert_eq!(store.get(&key("t")), Some(AuthorizedUserId(UserId(8))));
    assert!(store.advance(5));
    assert_eq!(store.get(&key("t")), None);
}

#[test]
fn several_tokens_of_one_user_are_independent() {
    let mut store = TokenStore::new();
    store.put(&key("a"), &AuthorizedUserId(UserId(7)), 60);
    store.put(&key("b"), &AuthorizedUserId(UserId(7)), 60);
    store.delete(&key("a"));
    assert_eq!(store.get(&key("a")), None);
    assert_eq!(store.get(&key("b")), Some(AuthorizedUserId(UserId(7))));
}

#[test]
fn clock_refuses_to_run_past_its_end() {
    let mut store = TokenStore::new();
    assert!(store.advance(u64::MAX - 1));
    store.put(&key("t"), &AuthorizedUserId(UserId(7)), 5);
    assert!(!store.advance(2));
    assert_eq!(store.now(), u64::MAX - 1);
    assert_eq!(store.get(&key("t")), Some(AuthorizedUserId(UserId(7))));
    assert!(store.advance(1));
    assert_eq!(store.now(), u64::MAX);
    assert_eq!(store.get(&key("t")), Some(AuthorizedUserId(UserId(7))));
}

#[test]
fn row_converts_to_profile() {
    let user = User::try_from(row(3, "Cy", "cy@x.com", "Admin")).unwrap();
    assert_eq!(user.id, UserId(3));
    assert_eq!(user.name, "Cy");
    assert_eq!(user.email, "cy@x.com");
    assert_eq!(user.role, Role::Admin);
    let copy = user.clone();
    assert_eq!(copy.id, UserId(3));
    assert_eq!(copy.name, "Cy");
    assert_eq!(copy.email, "cy@x.com");
    assert_eq!(copy.role, Role::Admin);
}

#[test]
fn row_with_unknown_role_is_a_conversion_error() {
    assert_eq!(User::try_from(row(3, "Cy", "cy@x.com", "Root")).err(), Some(AppError::Conversion));
    assert_eq!(user_from_row(Some(row(3, "Cy", "cy@x.com", "user"))).err(), Some(AppError::Conversion));
}

#[test]
fn lookup_of_no_row_is_no_user() {
    assert!(user_from_row(None).unwrap().is_none());
    let found = user_from_row(Some(row(4, "Di", "di@x.com", "User"))).unwrap().unwrap();
    assert_eq!(found.id, UserId(4));
    assert_eq!(found.role, Role::User);
}

#[test]
fn listing_drops_rows_that_do_not_convert() {
    let rows = vec![
        row(1, "Ann", "ann@x.com", "User"),
        row(2, "Bad", "bad@x.com", "Nobody"),
        row(3, "Cy", "cy@x.com", "Admin"),
        row(4, "Odd", "odd@x.com", ""),
    ];
    let users = users_from_rows(rows);
    assert_eq!(users.len(), 2);
    assert_eq!(users[0].id, UserId(1));
    assert_eq!(users[0].role, Role::User);
    assert_eq!(users[1].id, UserId(3));
    assert_eq!(users[1].name, "Cy");
    assert_eq!(users[1].role, Role::Admin);
    assert!(users_from_rows(Vec::new()).is_empty());
}

#[test]
fn zero_rows_affected_is_not_found() {
    assert_eq!(require_rows_affected(0), Err(AppError::EntityNotFound));
    assert_eq!(require_rows_affected(1), Ok(()));
    assert_eq!(require_rows_affected(2), Ok(()));
}

#[test]
fn create_stores_a_user_with_a_verifying_hash() {
    let mut users = UserRepositoryImpl::new();
    let created = users
        .create(CreateUser {
            name: String::from("Ann"),
            email: String::from("a@x.com"),
            password: String::from("Secr3t!"),
        })
        .unwrap();
    assert_eq!(created.name, "Ann");
    assert_eq!(created.email, "a@x.com");
    assert_eq!(created.role, Role::User);
    assert_eq!(verifies(&users, "a@x.com", "Secr3t!"), Ok(created.id));
    let found = users.find_current_user(created.id).unwrap().unwrap();
    assert_eq!(found.email, "a@x.com");
    assert_eq!(found.role, Role::User);
}

#[test]
fn register_refuses_a_taken_email_and_a_taken_identity() {
    let mut users = directory_of_two();
    let taken_email = users.register(UserId(3), String::from("X"), String::from("ann@x.com"), String::from("h"));
    assert_eq!(taken_email.err(), Some(AppError::DuplicateEmail));
    let taken_id = users.register(UserId(1), String::from("X"), String::from("new@x.com"), String::from("h"));
    assert_eq!(taken_id.err(), Some(AppError::Persistence));
    let both = users.register(UserId(1), String::from("X"), String::from("ann@x.com"), String::from("h"));
    assert_eq!(both.err(), Some(AppError::DuplicateEmail));
    assert_eq!(users.find_all().unwrap().len(), 2);
}

#[test]
fn create_refuses_a_taken_email() {
    let mut users = directory_of_two();
    let again = users.create(CreateUser {
        name: String::from("Other"),
        email: String::from("bob@x.com"),
        password: String::from("pw"),
    });
    assert_eq!(again.err(), Some(AppError::DuplicateEmail));
    assert_eq!(users.find_all().unwrap().len(), 2);
}

#[test]
fn lookups_by_identity_and_email() {
    let users = directory_of_two();
    let bob = users.find_current_user(UserId(2)).unwrap().unwrap();
    assert_eq!(bob.name, "Bob");
    assert_eq!(bob.email, "bob@x.com");
    assert_eq!(bob.role, Role::User);
    assert!(users.find_current_user(UserId(3)).unwrap().is_none());
    assert_eq!(verifies(&users, "nobody@x.com", "pw-ann"), Err(AppError::AuthenticationFailed));
    assert_eq!(verifies(&users, "ann@x.com", "pw-ann"), Ok(UserId(1)));
    assert_eq!(verifies(&users, "bob@x.com", "pw-bob"), Ok(UserId(2)));
    assert_eq!(verifies(&users, "bob@x.com", "pw-ann"), Err(AppError::AuthenticationFailed));
}

#[test]
fn listing_is_newest_first() {
    let mut users = directory_of_two();
    users.register(UserId(3), String::from("Cy"), String::from("cy@x.com"), String::from("h")).unwrap();
    let listed = users.find_all().unwrap();
    assert_eq!(listed.len(), 3);
    assert_eq!(listed[0].id, UserId(3));
    assert_eq!(listed[1].id, UserId(2));
    assert_eq!(listed[2].id, UserId(1));
    assert!(UserRepositoryImpl::new().find_all().unwrap().is_empty());
}

#[test]
fn role_update_changes_the_role_only() {
    let mut users = directory_of_two();
    assert_eq!(users.update_role(UpdateUserRole { user_id: UserId(2), role: Role::Admin }), Ok(()));
    let bob = users.find_current_user(UserId(2)).unwrap().unwrap();
    assert_eq!(bob.role, Role::Admin);
    assert_eq!(bob.name, "Bob");
    assert_eq!(bob.email, "bob@x.com");
    assert_eq!(users.find_current_user(UserId(1)).unwrap().unwrap().role, Role::User);
    assert_eq!(
        users.update_role(UpdateUserRole { user_id: UserId(9), role: Role::Admin }),
        Err(AppError::EntityNotFound)
    );
}

#[test]
fn delete_removes_the_account() {
    let mut users = directory_of_two();
    assert_eq!(users.delete(DeleteUser { user_id: UserId(1) }), Ok(()));
    assert!(users.find_current_user(UserId(1)).unwrap().is_none());
    assert_eq!(verifies(&users, "ann@x.com", "pw-ann"), Err(AppError::AuthenticationFailed));
    assert!(users.find_current_user(UserId(2)).unwrap().is_some());
    assert_eq!(users.delete(DeleteUser { user_id: UserId(1) }), Err(AppError::EntityNotFound));
    assert_eq!(users.find_all().unwrap().len(), 1);
}

#[test]
fn password_update_needs_the_current_password() {
    let mut users = directory_of_two();
    let wrong = users.update_password(UpdateUserPassword {
        user_id: UserId(1),
        current_password: String::from("nope"),
        new_password: String::from("next"),
    });
    assert_eq!(wrong, Err(AppError::AuthenticationFailed));
    assert_eq!(verifies(&users, "ann@x.com", "pw-ann"), Ok(UserId(1)));
    let unknown = users.update_password(UpdateUserPassword {
        user_id: UserId(9),
        current_password: String::from("pw-ann"),
        new_password: String::from("next"),
    });
    assert_eq!(unknown, Err(AppError::EntityNotFound));
}

#[test]
fn password_update_stores_a_hash_of_the_new_password() {
    let mut users = directory_of_two();
    let done = users.update_password(UpdateUserPassword {
        user_id: UserId(1),
        current_password: String::from("pw-ann"),
        new_password: String::from("next"),
    });
    assert_eq!(done, Ok(()));
    assert_eq!(verifies(&users, "ann@x.com", "next"), Ok(UserId(1)));
    assert_eq!(verifies(&users, "ann@x.com", "pw-ann"), Err(AppError::AuthenticationFailed));
}

#[test]
fn replacement_hash_rejects_an_unreadable_stored_hash() {
    let event = UpdateUserPassword {
        user_id: UserId(1),
        current_password: String::from("a"),
        new_password: String::from("b"),
    };
    assert_eq!(replacement_hash("garbage", &event), Err(AppError::Hashing));
    let stored = bcrypt::hash("other", 4).unwrap();
    assert_eq!(replacement_hash(&stored, &event), Err(AppError::AuthenticationFailed));
}

#[test]
fn replacement_hash_hashes_the_new_password_at_the_fixed_cost() {
    let event = UpdateUserPassword {
        user_id: UserId(1),
        current_password: String::from("a"),
        new_password: String::from("b"),
    };
    let stored = bcrypt::hash("a", 4).unwrap();
    let replacement = replacement_hash(&stored, &event).unwrap();
    assert!(replacement.starts_with("$2b$12$"));
    assert_eq!(replacement.len(), 60);
    assert_eq!(bcrypt::verify("b", &replacement).ok(), Some(true));
}

#[test]
fn insert_of_no_row_is_a_persistence_error() {
    assert_eq!(require_row_inserted(0), Err(AppError::Persistence));
    assert_eq!(require_row_inserted(1), Ok(()));
}

#[test]
fn missing_credential_is_not_found() {
    assert_eq!(found_credential(None).err(), Some(AppError::EntityNotFound));
    let item = UserItem { user_id: UserId(3), password_hash: String::from("h") };
    let found = found_credential(Some(item)).unwrap();
    assert_eq!(found.user_id, UserId(3));
    assert_eq!(found.password_hash, "h");
}

#[test]
fn store_failures_map_to_their_errors() {
    assert_eq!(StoreFailure::UniqueViolation.error(), AppError::DuplicateEmail);
    assert_eq!(StoreFailure::Rejected.error(), AppError::Persistence);
    assert_eq!(StoreFailure::Unreachable.error(), AppError::StoreUnavailable);
    assert_eq!(StoreFailure::Unreachable.error().status_code(), 503);
}

#[test]
fn role_update_twice_gives_the_same_directory() {
    let mut users = directory_of_two();
    assert_eq!(users.update_role(UpdateUserRole { user_id: UserId(1), role: Role::Admin }), Ok(()));
    assert_eq!(users.update_role(UpdateUserRole { user_id: UserId(1), role: Role::Admin }), Ok(()));
    let listed = users.find_all().unwrap();
    assert_eq!(listed.len(), 2);
    assert_eq!(listed[1].id, UserId(1));
    assert_eq!(listed[1].role, Role::Admin);
    assert_eq!(listed[1].name, "Ann");
    assert_eq!(listed[0].role, Role::User);
    assert_eq!(verifies(&users, "ann@x.com", "pw-ann"), Ok(UserId(1)));
}

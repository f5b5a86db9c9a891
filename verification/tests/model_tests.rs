use authcore::auth::{from, AuthorizationKey, AuthorizedUserId};
use authcore::bearer::bearer_token;
use authcore::error::AppError;
use authcore::id::{format_simple, UserId};
use authcore::model::{str_eq, AccessToken, CreateToken, Role};

fn token_text(header: &str) -> Option<String> {
    bearer_token(header).map(|token| token.0)
}

#[test]
fn identity_text_is_thirty_two_lower_hex_digits() {
    assert_eq!(format_simple(0), "00000000000000000000000000000000");
    assert_eq!(format_simple(u128::MAX), "ffffffffffffffffffffffffffffffff");
    assert_eq!(
        UserId(0x0123456789abcdef_fedcba9876543210).to_string(),
        "0123456789abcdeffedcba9876543210"
    );
    assert_eq!(UserId(0xa1).to_string(), "000000000000000000000000000000a1");
}

#[test]
fn identity_reads_back_from_its_text() {
    let id = UserId(0x0123456789abcdef_fedcba9876543210);
    assert_eq!(UserId::from_str(&id.to_string()), Ok(id));
    assert_eq!(UserId::from_str("00000000000000000000000000000007"), Ok(UserId(7)));
    assert_eq!(id.raw(), 0x0123456789abcdef_fedcba9876543210);
}

#[test]
fn identity_reads_from_hyphenated_and_upper_case_text() {
    assert_eq!(
        UserId::from_str("01234567-89ab-cdef-fedc-ba9876543210"),
        Ok(UserId(0x0123456789abcdef_fedcba9876543210))
    );
    assert_eq!(
        UserId::from_str("0123456789ABCDEFFEDCBA9876543210"),
        Ok(UserId(0x0123456789abcdef_fedcba9876543210))
    );
}

#[test]
fn malformed_identity_is_a_conversion_error() {
    assert_eq!(UserId::from_str(""), Err(AppError::Conversion));
    assert_eq!(UserId::from_str("not-an-identity"), Err(AppError::Conversion));
    assert_eq!(UserId::from_str("0123456789abcdeffedcba987654321"), Err(AppError::Conversion));
    assert_eq!(UserId::from_str("0123456789abcdeffedcba987654321g"), Err(AppError::Conversion));
}

#[test]
fn fresh_identities_differ() {
    assert_ne!(UserId::new(), UserId::new());
}

#[test]
fn fresh_identity_is_marked_version_four() {
    for _ in 0..32 {
        let id = UserId::new();
        assert_eq!((id.raw() >> 76) & 0xf, 4);
        assert_eq!((id.raw() >> 62) & 0x3, 2);
        let text = id.to_string();
        assert_eq!(text.as_bytes()[12], b'4');
        assert!(matches!(text.as_bytes()[16], b'8' | b'9' | b'a' | b'b'));
    }
}

#[test]
fn role_names() {
    assert_eq!(Role::Admin.as_ref(), "Admin");
    assert_eq!(Role::User.as_ref(), "User");
    assert_eq!(Role::from_str("Admin"), Ok(Role::Admin));
    assert_eq!(Role::from_str("User"), Ok(Role::User));
    assert_eq!(Role::from_str("admin"), Err(AppError::Conversion));
    assert_eq!(Role::from_str(""), Err(AppError::Conversion));
    assert_eq!(Role::from_str("Guest"), Err(AppError::Conversion));
    assert_eq!(Role::default(), Role::User);
}

#[test]
fn texts_compare_by_content() {
    assert!(str_eq("abc", "abc"));
    assert!(!str_eq("abc", "abd"));
    assert!(!str_eq("abc", "ab"));
    assert!(str_eq("", ""));
}

#[test]
fn minted_tokens_have_the_fixed_shape_and_differ() {
    let first = CreateToken::new(UserId(1));
    let second = CreateToken::new(UserId(1));
    assert_eq!(first.user_id, UserId(1));
    assert_eq!(first.access_token.len(), 32);
    assert!(first.access_token.chars().all(|c| matches!(c, '0'..='9' | 'a'..='f')));
    assert_ne!(first.access_token, second.access_token);
}

#[test]
fn token_request_splits_into_key_and_value() {
    let event = CreateToken { user_id: UserId(9), access_token: String::from("abc") };
    let (key, value) = from(event);
    assert_eq!(key.inner(), "abc");
    assert_eq!(value, AuthorizedUserId(UserId(9)));
    assert_eq!(value.into_inner(), UserId(9));
    assert_eq!(value.inner(), "00000000000000000000000000000009");
}

#[test]
fn key_and_token_convert_both_ways() {
    let key = AuthorizationKey::from(AccessToken(String::from("t1")));
    assert_eq!(key.0, "t1");
    let token = AccessToken::from(key);
    assert_eq!(token.0, "t1");
    assert_eq!(AuthorizationKey::from_ref(&token).inner(), "t1");
    assert_eq!(token.clone().0, "t1");
}

#[test]
fn stored_value_reads_back() {
    let value = AuthorizedUserId(UserId(0xfeed));
    assert_eq!(AuthorizedUserId::try_from(value.inner()), Ok(value));
    assert_eq!(AuthorizedUserId::try_from(String::from("junk")), Err(AppError::Conversion));
}

#[test]
fn bearer_token_is_what_follows_the_scheme() {
    assert_eq!(token_text("Bearer abc"), Some(String::from("abc")));
    assert_eq!(token_text("Bearer garbage"), Some(String::from("garbage")));
    assert_eq!(token_text("Bearer a b"), Some(String::from("a b")));
}

#[test]
fn bearer_scheme_ignores_case() {
    assert_eq!(token_text("bearer abc"), Some(String::from("abc")));
    assert_eq!(token_text("BEARER abc"), Some(String::from("abc")));
    assert_eq!(token_text("bEaReR abc"), Some(String::from("abc")));
}

#[test]
fn blanks_before_the_token_are_dropped() {
    assert_eq!(token_text("Bearer    abc"), Some(String::from("abc")));
    assert_eq!(token_text("Bearer \t abc "), Some(String::from("abc ")));
    assert_eq!(token_text("Bearer "), Some(String::new()));
    assert_eq!(token_text("Bearer   "), Some(String::new()));
}

#[test]
fn other_schemes_and_malformed_values_present_no_token() {
    assert_eq!(token_text(""), None);
    assert_eq!(token_text("Bearer"), None);
    assert_eq!(token_text("Bearerabc"), None);
    assert_eq!(token_text("Bearer\tabc"), None);
    assert_eq!(token_text("Basic abc"), None);
    assert_eq!(token_text("Token abc"), None);
    assert_eq!(token_text(" Bearer abc"), None);
    assert_eq!(token_text("Bearer ab\u{7f}c"), None);
    assert_eq!(token_text("Bearer ab\nc"), None);
    assert_eq!(token_text("Bearer caf\u{e9}"), None);
}

#[test]
fn error_status_codes() {
    assert_eq!(AppError::AuthenticationFailed.status_code(), 401);
    assert_eq!(AppError::Unauthorized.status_code(), 401);
    assert_eq!(AppError::Unauthenticated.status_code(), 403);
    assert_eq!(AppError::DuplicateEmail.status_code(), 409);
    assert_eq!(AppError::EntityNotFound.status_code(), 404);
    assert_eq!(AppError::Hashing.status_code(), 500);
    assert_eq!(AppError::StoreUnavailable.status_code(), 503);
    assert_eq!(AppError::Persistence.status_code(), 500);
    assert_eq!(AppError::Conversion.status_code(), 500);
    assert!(AppError::Unauthorized.is_rejection());
    assert!(AppError::AuthenticationFailed.is_rejection());
    assert!(!AppError::StoreUnavailable.is_rejection());
    assert!(!AppError::Hashing.is_rejection());
}

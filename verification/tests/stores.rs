//! Tests of the in-memory reference store backends.

use auth_service::Email;
use auth_service::HashmapTwoFACodeStore;
use auth_service::HashmapUserStore;
use auth_service::HashsetBannedTokenStore;
use auth_service::LoginAttemptId;
use auth_service::Password;
use auth_service::SecretString;
use auth_service::TwoFACode;
use auth_service::TwoFACodeStoreError;
use auth_service::User;
use auth_service::UserStoreError;
use auth_service::get_key;

const TEST_EMAIL: &str = "test@example.com";
const TEST_PASSWORD: &str = "Asdf1234";

fn setup_user() -> User {
    User::new(
        Email::parse(SecretString::new(TEST_EMAIL.to_string())).unwrap(),
        Password::parse(SecretString::new(TEST_PASSWORD.to_string())).unwrap(),
        true,
    )
}

#[test]
fn test_add_user() {
    let mut test_subject = HashmapUserStore::default();
    let input = setup_user();
    let result = test_subject.add_user(input);
    assert!(result.is_ok());
}

#[test]
fn test_adding_same_user_and_expect_error() {
    let mut test_subject = HashmapUserStore::default();
    let input = setup_user();

    let _ = test_subject.add_user(input);

    let input2 = setup_user();
    let result = test_subject.add_user(input2);

    assert!(result.is_err());
    assert_eq!(result.unwrap_err(), UserStoreError::UserAlreadyExists)
}

#[test]
fn test_get_user() {
    let mut test_subject = HashmapUserStore::default();
    let input = setup_user();

    let _ = test_subject.add_user(input);

    let expected_user = setup_user();
    let result = test_subject.get_user(&expected_user.email);

    assert!(result.is_ok());
}

#[test]
fn test_get_user_that_does_not_exist() {
    let test_subject = HashmapUserStore::default();
    let input = setup_user();

    let result = test_subject.get_user(&input.email);

    assert!(result.is_err());
}

#[test]
fn test_validate_user() {
    let mut test_subject = HashmapUserStore::default();
    let input = setup_user();

    let _ = test_subject.add_user(input);

    let expected_input = setup_user();
    let result = test_subject.validate_user(&expected_input.email, &expected_input.password);

    assert!(result.is_ok());
}

#[test]
fn test_validate_user_with_invalid_password() {
    let mut test_subject = HashmapUserStore::default();
    let input = setup_user();

    let _ = test_subject.add_user(input);

    let input = User::new(
        Email::parse(SecretString::new(TEST_EMAIL.to_string())).unwrap(),
        Password::parse(SecretString::new("asdef1234".to_string())).unwrap(),
        true,
    );

    let result = test_subject.validate_user(&input.email, &input.password);

    assert!(result.is_err());
}

#[test]
fn test_validate_user_that_does_not_exist() {
    let test_subject = HashmapUserStore::default();

    let input = User::new(
        Email::parse(SecretString::new("test@example.com".to_string())).unwrap(),
        Password::parse(SecretString::new("Asdef1234".to_string())).unwrap(),
        true,
    );

    let result = test_subject.validate_user(&input.email, &input.password);

    assert!(result.is_err());
}

#[test]
fn test_add_and_get_code() {
    let mut store = HashmapTwoFACodeStore::default();
    let email = Email::parse(SecretString::new("test@example.com".to_string())).unwrap();
    let login_attempt_id = LoginAttemptId::default();
    let code = TwoFACode::parse(SecretString::new("123456".to_string())).unwrap();
    store
        .add_code(email.clone(), login_attempt_id.clone(), code.clone())
        .unwrap();
    let (retrieved_login_attempt_id, retrieved_code) = store.get_code(&email).unwrap();
    assert_eq!(login_attempt_id, retrieved_login_attempt_id);
    assert_eq!(code, retrieved_code);
}

#[test]
fn test_remove_code() {
    let mut store = HashmapTwoFACodeStore::default();
    let email = Email::parse(SecretString::new("test@example.com".to_string())).unwrap();
    let login_attempt_id = LoginAttemptId::default();
    let code = TwoFACode::parse(SecretString::new("123456".to_string())).unwrap();
    store.add_code(email.clone(), login_attempt_id, code).unwrap();
    store.remove_code(email.clone()).unwrap();
    let result = store.get_code(&email);
    assert!(matches!(
        result,
        Err(TwoFACodeStoreError::LoginAttemptIdNotFound)
    ));
}

#[test]
fn test_add_code_replaces_pending_challenge() {
    let mut store = HashmapTwoFACodeStore::default();
    let email = Email::parse(SecretString::new("test@example.com".to_string())).unwrap();
    let first_id = LoginAttemptId::parse(SecretString::new(
        "550e8400-e29b-41d4-a716-446655440000".to_string(),
    ))
    .unwrap();
    let first_code = TwoFACode::parse(SecretString::new("111111".to_string())).unwrap();
    let second_id = LoginAttemptId::parse(SecretString::new(
        "67e55044-10b1-426f-9247-bb680e5fe0c8".to_string(),
    ))
    .unwrap();
    let second_code = TwoFACode::parse(SecretString::new("222222".to_string())).unwrap();
    store.add_code(email.clone(), first_id, first_code).unwrap();
    store
        .add_code(email.clone(), second_id.clone(), second_code.clone())
        .unwrap();
    let (retrieved_id, retrieved_code) = store.get_code(&email).unwrap();
    assert_eq!(second_id, retrieved_id);
    assert_eq!(second_code, retrieved_code);
}

#[test]
fn test_add_and_check_token() {
    let mut store = HashsetBannedTokenStore::default();

    let token = "sample_token";

    // Initially, the token should not be banned
    let is_banned = store
        .contains_token(SecretString::new(token.to_string()))
        .unwrap();
    assert!(!is_banned, "Token should not be banned initially");

    // Add the token to the banned list
    store.add_token(SecretString::new(token.to_string())).unwrap();
    // Now, the token should be banned
    let is_banned = store
        .contains_token(SecretString::new(token.to_string()))
        .unwrap();
    assert!(is_banned, "Token should be banned after adding");
}

#[test]
fn test_add_token_twice_is_a_conflict() {
    let mut store = HashsetBannedTokenStore::default();
    store
        .add_token(SecretString::new("sample_token".to_string()))
        .unwrap();
    let result = store.add_token(SecretString::new("sample_token".to_string()));
    assert!(result.is_err());
}

#[test]
fn test_get_key_prefixes_the_token() {
    assert_eq!("banned_token:abc", get_key("abc"));
}

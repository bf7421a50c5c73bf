//! Tests of the identity value types: parsing, generation, equality.

use auth_service::Email;
use auth_service::LoginAttemptId;
use auth_service::Password;
use auth_service::SecretString;
use auth_service::TwoFACode;

#[test]
fn test_parse_email_ok() {
    let expected_value = "test@example.com".to_string();
    let test_email = Email::parse(SecretString::new("test@example.com".to_string()));

    assert!(test_email.is_ok());
    assert_eq!(expected_value, test_email.unwrap().value().to_string())
}

#[test]
fn test_parse_email_err() {
    let expected_value = "Email doesn't fill the requirements".to_string();
    let test_email = Email::parse(SecretString::new("example.com".to_string()));

    assert!(test_email.is_err());
    assert_eq!(expected_value, test_email.unwrap_err())
}

#[test]
fn test_parse_password_ok() {
    let expected_value = "Asdf1234".to_string();
    let test_password = Password::parse(SecretString::new("Asdf1234".to_string()));

    assert!(test_password.is_ok());
    assert_eq!(expected_value, test_password.unwrap().value().to_string())
}

#[test]
fn test_parse_password_err() {
    let expected_value = "Password doesn't fill the requirements".to_string();
    let test_password = Password::parse(SecretString::new("Asdf123".to_string()));

    assert!(test_password.is_err());
    assert_eq!(expected_value, test_password.unwrap_err())
}

#[test]
fn test_parse_2fa_code_ok() {
    let expected_value = "123456".to_string();
    let test_code = TwoFACode::parse(SecretString::new("123456".to_string()));
    assert!(test_code.is_ok());
    assert_eq!(expected_value, test_code.unwrap().value().to_string())
}

#[test]
fn test_parse_2fa_code_err() {
    let expected_value = "2FA Code must be a number".to_string();
    let test_code = TwoFACode::parse(SecretString::new("12345a".to_string()));
    assert!(test_code.is_err());
    assert_eq!(expected_value, test_code.unwrap_err())
}

#[test]
fn test_parse_2fa_code_err_wrong_length() {
    let expected_value = "2FA Code must be a 6-digit number".to_string();
    let test_code = TwoFACode::parse(SecretString::new("12345".to_string()));
    assert!(test_code.is_err());
    assert_eq!(expected_value, test_code.unwrap_err())
}

#[test]
fn test_default_2fa_code() {
    let test_code = TwoFACode::default();
    assert_eq!(6, test_code.value().len());
    assert!(test_code.value().chars().all(|c| c.is_digit(10)));
}

#[test]
fn test_parse_login_attempt_id_ok() {
    let expected_value = "550e8400-e29b-41d4-a716-446655440000".to_string();
    let test_id = LoginAttemptId::parse(SecretString::new(
        "550e8400-e29b-41d4-a716-446655440000".to_string(),
    ));
    assert!(test_id.is_ok());
    assert_eq!(expected_value, test_id.unwrap().value().to_string())
}

#[test]
fn test_parse_login_attempt_id_err() {
    let expected_value = "Login Attempt ID doesn't match with UUID format".to_string();
    let test_id = LoginAttemptId::parse(SecretString::new("invalid-uuid-format".to_string()));
    assert!(test_id.is_err());
    assert_eq!(expected_value, test_id.unwrap_err())
}

#[test]
fn test_parse_login_attempt_id_normalizes_case() {
    // Parsing accepts uppercase hexadecimal text but hands back the
    // canonical lowercase form.
    let test_id = LoginAttemptId::parse(SecretString::new(
        "550E8400-E29B-41D4-A716-446655440000".to_string(),
    ));
    assert!(test_id.is_ok());
    assert_eq!(
        "550e8400-e29b-41d4-a716-446655440000",
        test_id.unwrap().value()
    )
}

#[test]
fn test_default_login_attempt_id() {
    let test_id = LoginAttemptId::default();
    let value = test_id.value().to_string();
    assert_eq!(36, value.len());
    assert_eq!('-', value.chars().nth(8).unwrap());
    assert_eq!('-', value.chars().nth(13).unwrap());
    assert_eq!('-', value.chars().nth(18).unwrap());
    assert_eq!('-', value.chars().nth(23).unwrap());
}

#[test]
fn test_email_equality_is_by_value() {
    let a = Email::parse(SecretString::new("test@example.com".to_string())).unwrap();
    let b = Email::parse(SecretString::new("test@example.com".to_string())).unwrap();
    let c = Email::parse(SecretString::new("other@example.com".to_string())).unwrap();
    assert_eq!(a, b);
    assert_ne!(a, c);
}

#[test]
fn test_email_rejects_missing_parts() {
    assert!(Email::parse(SecretString::new("nope".to_string())).is_err());
    assert!(Email::parse(SecretString::new("@example.com".to_string())).is_err());
    assert!(Email::parse(SecretString::new("user@".to_string())).is_err());
    assert!(Email::parse(SecretString::new("user@domain".to_string())).is_err());
    assert!(Email::parse(SecretString::new("user@domain.c".to_string())).is_err());
    assert!(Email::parse(SecretString::new("user@domain.c0m".to_string())).is_err());
    assert!(Email::parse(SecretString::new("us er@domain.com".to_string())).is_err());
    assert!(Email::parse(SecretString::new("a@b@domain.com".to_string())).is_err());
}

#[test]
fn test_email_accepts_rich_local_and_domain() {
    assert!(Email::parse(SecretString::new("first.last+tag%x_y-z@sub.do-main.org".to_string()))
        .is_ok());
    assert!(Email::parse(SecretString::new("A@B.CO".to_string())).is_ok());
}

#[test]
fn test_empty_inputs_are_rejected() {
    assert!(Email::parse(SecretString::new(String::new())).is_err());
    assert!(Password::parse(SecretString::new(String::new())).is_err());
    assert!(TwoFACode::parse(SecretString::new(String::new())).is_err());
    assert!(LoginAttemptId::parse(SecretString::new(String::new())).is_err());
}

#[test]
fn test_password_boundary_length() {
    assert!(Password::parse(SecretString::new("1234567".to_string())).is_err());
    assert!(Password::parse(SecretString::new("12345678".to_string())).is_ok());
}

#[test]
fn test_code_with_leading_zero_is_accepted() {
    // Six digits are required; a leading zero is allowed, matching the
    // generator, which draws each digit independently.
    let code = TwoFACode::parse(SecretString::new("012345".to_string()));
    assert!(code.is_ok());
    assert_eq!("012345", code.unwrap().value());
}

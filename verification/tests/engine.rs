//! End-to-end scenarios through the authentication engine, and tests
//! of the session token codec.

use auth_service::AuthAPIError;
use auth_service::Email;
use auth_service::HashmapTwoFACodeStore;
use auth_service::HashmapUserStore;
use auth_service::HashsetBannedTokenStore;
use auth_service::LoginRequest;
use auth_service::LoginResponse;
use auth_service::MockEmailClient;
use auth_service::SecretString;
use auth_service::SignupRequest;
use auth_service::TOKEN_TTL_SECONDS;
use auth_service::Verify2FARequest;
use auth_service::VerifyTokenRequest;
use auth_service::login;
use auth_service::logout;
use auth_service::mint;
use auth_service::signup;
use auth_service::verify;
use auth_service::verify_2fa;
use auth_service::verify_token;

const SECRET: &str = "server-held-signing-secret";
const NOW: u64 = 1_700_000_000;

fn signup_request(email: &str, password: &str, requires_2fa: bool) -> SignupRequest {
    SignupRequest {
        email: email.to_string(),
        password: password.to_string(),
        requires_2fa,
    }
}

fn login_request(email: &str, password: &str) -> LoginRequest {
    LoginRequest {
        email: email.to_string(),
        password: password.to_string(),
    }
}

#[test]
fn full_session_lifecycle_without_2fa() {
    // Signup, login, introspect, logout, introspect again: the revoked
    // token no longer passes.
    let mut users = HashmapUserStore::default();
    let mut challenges = HashmapTwoFACodeStore::default();
    let mut banned = HashsetBannedTokenStore::default();
    let email_client = MockEmailClient::default();

    let created = signup(&mut users, signup_request("a@b.com", "Asdf1234", false)).unwrap();
    assert_eq!("User created successfully", created.message);

    let (response, cookie) = login(
        &users,
        &mut challenges,
        &email_client,
        login_request("a@b.com", "Asdf1234"),
        SECRET,
        NOW,
    )
    .unwrap();
    assert!(matches!(response, LoginResponse::RegularAuth));
    let token = cookie.expect("No auth cookie found");

    let introspected = verify_token(
        &mut banned,
        VerifyTokenRequest { token: SecretString::new(token.clone()) },
        SECRET,
        NOW,
    );
    assert!(introspected.is_ok());

    let logged_out = logout(&mut banned, Some(&SecretString::new(token.clone())), SECRET, NOW);
    assert!(logged_out.is_ok());

    let after_logout = verify_token(
        &mut banned,
        VerifyTokenRequest { token: SecretString::new(token.clone()) },
        SECRET,
        NOW,
    );
    assert!(matches!(after_logout, Err(AuthAPIError::InvalidToken)));
    assert_eq!(401, after_logout.unwrap_err().status_code());
}

#[test]
fn login_with_2fa_disabled_creates_no_challenge() {
    let mut users = HashmapUserStore::default();
    let mut challenges = HashmapTwoFACodeStore::default();
    let email_client = MockEmailClient::default();

    signup(&mut users, signup_request("a@b.com", "Asdf1234", false)).unwrap();
    login(
        &users,
        &mut challenges,
        &email_client,
        login_request("a@b.com", "Asdf1234"),
        SECRET,
        NOW,
    )
    .unwrap();

    let email = Email::parse(SecretString::new("a@b.com".to_string())).unwrap();
    assert!(challenges.get_code(&email).is_err());
}

#[test]
fn two_factor_flow_and_replay_rejection() {
    // Signup with a second factor, login to get a challenge, fetch the
    // stored code out of band, verify once (success), then replay the
    // identical request: the consumed challenge must reject it.
    let mut users = HashmapUserStore::default();
    let mut challenges = HashmapTwoFACodeStore::default();
    let email_client = MockEmailClient::default();

    signup(&mut users, signup_request("test@example.com", "Asdf1234@", true)).unwrap();

    let (response, cookie) = login(
        &users,
        &mut challenges,
        &email_client,
        login_request("test@example.com", "Asdf1234@"),
        SECRET,
        NOW,
    )
    .unwrap();
    assert!(cookie.is_none());
    let login_attempt_id = match response {
        LoginResponse::TwoFactorAuth(body) => {
            assert_eq!("2FA required", body.message);
            body.login_attempt_id
        }
        LoginResponse::RegularAuth => panic!("expected a two-factor challenge"),
    };

    let email = Email::parse(SecretString::new("test@example.com".to_string())).unwrap();
    let (stored_id, stored_code) = challenges.get_code(&email).unwrap();
    assert_eq!(login_attempt_id, stored_id.value());

    let first_attempt = verify_2fa(
        &mut challenges,
        Verify2FARequest {
            email: SecretString::new("test@example.com".to_string()),
            login_attempt_id: SecretString::new(login_attempt_id.clone()),
            two_fa_code: SecretString::new(stored_code.value().to_string()),
        },
        SECRET,
        NOW,
    );
    let token = first_attempt.unwrap();
    assert!(verify(&token, SECRET, NOW).is_some());

    let replay = verify_2fa(
        &mut challenges,
        Verify2FARequest {
            email: SecretString::new("test@example.com".to_string()),
            login_attempt_id: SecretString::new(login_attempt_id),
            two_fa_code: SecretString::new(stored_code.value().to_string()),
        },
        SECRET,
        NOW,
    );
    assert!(matches!(replay, Err(AuthAPIError::IncorrectCredentials)));
    assert_eq!(401, replay.unwrap_err().status_code());
}

#[test]
fn second_login_overwrites_the_pending_challenge() {
    // A second login replaces the challenge; the first identifier must
    // then fail verification even with the currently stored code.
    let mut users = HashmapUserStore::default();
    let mut challenges = HashmapTwoFACodeStore::default();
    let email_client = MockEmailClient::default();

    signup(&mut users, signup_request("test@example.com", "Asdf1234@", true)).unwrap();

    let first = login(
        &users,
        &mut challenges,
        &email_client,
        login_request("test@example.com", "Asdf1234@"),
        SECRET,
        NOW,
    )
    .unwrap();
    let first_id = match first.0 {
        LoginResponse::TwoFactorAuth(body) => body.login_attempt_id,
        LoginResponse::RegularAuth => panic!("expected a two-factor challenge"),
    };

    login(
        &users,
        &mut challenges,
        &email_client,
        login_request("test@example.com", "Asdf1234@"),
        SECRET,
        NOW,
    )
    .unwrap();

    let email = Email::parse(SecretString::new("test@example.com".to_string())).unwrap();
    let (second_id, second_code) = challenges.get_code(&email).unwrap();
    assert_ne!(first_id, second_id.value());

    let stale = verify_2fa(
        &mut challenges,
        Verify2FARequest {
            email: SecretString::new("test@example.com".to_string()),
            login_attempt_id: SecretString::new(first_id),
            two_fa_code: SecretString::new(second_code.value().to_string()),
        },
        SECRET,
        NOW,
    );
    assert!(matches!(stale, Err(AuthAPIError::IncorrectCredentials)));
}

#[test]
fn signup_rejects_duplicates_and_keeps_one_record() {
    let mut users = HashmapUserStore::default();
    signup(&mut users, signup_request("example@test.com", "asdf1234", false)).unwrap();
    let second = signup(&mut users, signup_request("example@test.com", "asdf1234", false));
    assert!(matches!(second, Err(AuthAPIError::UserAlreadyExists)));
    assert_eq!(409, second.unwrap_err().status_code());

    // The store still holds the first record.
    let email = Email::parse(SecretString::new("example@test.com".to_string())).unwrap();
    let user = users.get_user(&email).unwrap();
    assert_eq!("asdf1234", user.password.value());
}

#[test]
fn malformed_input_is_distinct_from_wrong_credentials() {
    let mut users = HashmapUserStore::default();
    let mut challenges = HashmapTwoFACodeStore::default();
    let email_client = MockEmailClient::default();

    let malformed = signup(&mut users, signup_request("nope", "password123", false));
    assert!(matches!(malformed, Err(AuthAPIError::InvalidCredentials)));
    assert_eq!(400, malformed.unwrap_err().status_code());

    signup(&mut users, signup_request("example@test.com", "asdf1234", false)).unwrap();

    let malformed_login = login(
        &users,
        &mut challenges,
        &email_client,
        login_request("nope", "password123"),
        SECRET,
        NOW,
    );
    assert!(matches!(malformed_login, Err(AuthAPIError::InvalidCredentials)));
    assert_eq!(400, malformed_login.unwrap_err().status_code());

    let wrong_password = login(
        &users,
        &mut challenges,
        &email_client,
        login_request("example@test.com", "asdf12345"),
        SECRET,
        NOW,
    );
    assert!(matches!(wrong_password, Err(AuthAPIError::IncorrectCredentials)));
    assert_eq!(401, wrong_password.unwrap_err().status_code());

    // An unknown email gives the same outcome as a wrong password.
    let unknown_email = login(
        &users,
        &mut challenges,
        &email_client,
        login_request("unknown@test.com", "asdf1234"),
        SECRET,
        NOW,
    );
    assert!(matches!(unknown_email, Err(AuthAPIError::IncorrectCredentials)));
}

#[test]
fn logout_without_cookie_is_missing_token() {
    let mut banned = HashsetBannedTokenStore::default();
    let result = logout(&mut banned, None, SECRET, NOW);
    assert!(matches!(result, Err(AuthAPIError::MissingToken)));
    assert_eq!(400, result.unwrap_err().status_code());
}

#[test]
fn logout_twice_fails_the_second_time() {
    let mut banned = HashsetBannedTokenStore::default();
    let email = Email::parse(SecretString::new("a@b.com".to_string())).unwrap();
    let token = mint(&email, SECRET, NOW);

    let first = logout(&mut banned, Some(&SecretString::new(token.clone())), SECRET, NOW);
    assert!(first.is_ok());

    let second = logout(&mut banned, Some(&SecretString::new(token)), SECRET, NOW);
    assert!(matches!(second, Err(AuthAPIError::InvalidToken)));
    assert_eq!(401, second.unwrap_err().status_code());
}

#[test]
fn logout_rejects_a_garbage_token() {
    let mut banned = HashsetBannedTokenStore::default();
    let result = logout(&mut banned, Some(&SecretString::new("invalid".to_string())), SECRET, NOW);
    assert!(matches!(result, Err(AuthAPIError::InvalidToken)));
}

#[test]
fn minted_token_carries_subject_and_expiry() {
    let email = Email::parse(SecretString::new("a@b.com".to_string())).unwrap();
    let token = mint(&email, SECRET, NOW);
    let claims = verify(&token, SECRET, NOW).expect("freshly minted token must verify");
    assert_eq!("a@b.com", claims.sub);
    assert_eq!(NOW + TOKEN_TTL_SECONDS, claims.exp);
}

#[test]
fn token_expires_at_its_window() {
    let email = Email::parse(SecretString::new("a@b.com".to_string())).unwrap();
    let token = mint(&email, SECRET, NOW);
    assert!(verify(&token, SECRET, NOW + TOKEN_TTL_SECONDS - 1).is_some());
    assert!(verify(&token, SECRET, NOW + TOKEN_TTL_SECONDS).is_none());
}

#[test]
fn tampered_token_fails_verification() {
    let email = Email::parse(SecretString::new("a@b.com".to_string())).unwrap();
    let token = mint(&email, SECRET, NOW);

    // Changing the subject invalidates the tag.
    let mut forged_subject = token[..token.len() - 1].to_string();
    forged_subject.push('x');
    assert!(verify(&forged_subject, SECRET, NOW).is_none());

    // A different secret rejects the token.
    assert!(verify(&token, "another-secret", NOW).is_none());

    // Shapeless strings are rejected.
    assert!(verify("", SECRET, NOW).is_none());
    assert!(verify("invalid", SECRET, NOW).is_none());
}

#[test]
fn error_outcomes_map_to_their_status_and_message() {
    assert_eq!(409, AuthAPIError::UserAlreadyExists.status_code());
    assert_eq!("User already exists", AuthAPIError::UserAlreadyExists.message());
    assert_eq!(400, AuthAPIError::InvalidCredentials.status_code());
    assert_eq!("Invalid credentials", AuthAPIError::InvalidCredentials.message());
    assert_eq!(401, AuthAPIError::IncorrectCredentials.status_code());
    assert_eq!("Incorrect credentials", AuthAPIError::IncorrectCredentials.message());
    assert_eq!(400, AuthAPIError::MissingToken.status_code());
    assert_eq!("Missing token", AuthAPIError::MissingToken.message());
    assert_eq!(401, AuthAPIError::InvalidToken.status_code());
    assert_eq!("Invalid token", AuthAPIError::InvalidToken.message());
    assert_eq!(500, AuthAPIError::UnexpectedError("cause".to_string()).status_code());
    assert_eq!("Unexpected error", AuthAPIError::UnexpectedError("cause".to_string()).message());
}

#[test]
fn signup_then_validate_credentials_round_trip() {
    let mut users = HashmapUserStore::default();
    signup(&mut users, signup_request("a@b.com", "Asdf1234", false)).unwrap();

    let email = Email::parse(SecretString::new("a@b.com".to_string())).unwrap();
    let right = auth_service::Password::parse(SecretString::new("Asdf1234".to_string())).unwrap();
    let wrong = auth_service::Password::parse(SecretString::new("Asdf12345".to_string())).unwrap();
    assert!(users.validate_user(&email, &right).is_ok());
    assert!(users.validate_user(&email, &wrong).is_err());
}

#[test]
fn token_minted_near_the_clock_limit() {
    let email = Email::parse(SecretString::new("a@b.com".to_string())).unwrap();
    let late = u64::MAX - TOKEN_TTL_SECONDS - 1;
    let token = mint(&email, SECRET, late);
    let claims = verify(&token, SECRET, late).expect("token minted at the limit must verify");
    assert_eq!(late + TOKEN_TTL_SECONDS, claims.exp);
}

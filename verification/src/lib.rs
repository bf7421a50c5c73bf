//! A verified authentication engine: validated identity value types,
//! in-memory credential / two-factor-challenge / revoked-token stores,
//! a signed time-bounded session-token codec, and the decision logic
//! for signup, login, two-factor verification, logout and token
//! introspection.

mod banned_token_store;
mod email;
mod errors;
mod laws;
mod login;
mod login_attempt_id;
mod logout;
mod mock_email_client;
mod password;
mod secret;
mod signup;
mod text;
mod token;
mod two_fa_code;
mod two_fa_store;
mod user;
mod user_store;
mod verify_2fa;
mod verify_token;

pub use banned_token_store::HashsetBannedTokenStore;
pub use banned_token_store::get_key;
pub use banned_token_store::tokens_set;
pub use email::Email;
pub use email::is_valid_email;
pub use errors::AuthAPIError;
pub use errors::BannedTokenStoreError;
pub use errors::ErrorResponse;
pub use errors::TwoFACodeStoreError;
pub use errors::UserStoreError;
pub use laws::lemma_challenge_consumed_rejects_replay;
pub use laws::lemma_duplicate_signup_keeps_one_record;
pub use laws::lemma_second_login_invalidates_first_challenge;
pub use laws::lemma_signup_then_verify_credentials;
pub use laws::lemma_token_lifecycle;
pub use login::LoginRequest;
pub use login::LoginResponse2FA;
pub use login::LoginResponse;
pub use login::login;
pub use login_attempt_id::LoginAttemptId;
pub use login_attempt_id::is_uuid_text;
pub use login_attempt_id::uuid_canonical;
pub use logout::logout;
pub use mock_email_client::MockEmailClient;
pub use password::Password;
pub use password::is_valid_password;
pub use secret::SecretString;
pub use signup::SignupRequest;
pub use signup::SignupResponse;
pub use signup::signup;
pub use text::digits_to_nat;
pub use text::is_digit_char;
pub use token::Claims;
pub use token::TOKEN_TTL_SECONDS;
pub use token::lemma_mint_ok;
pub use token::mac64;
pub use token::mint;
pub use token::spec_mint;
pub use token::token_exp;
pub use token::token_ok;
pub use token::token_sub;
pub use token::validate_token;
pub use token::verify;
pub use two_fa_code::TwoFACode;
pub use two_fa_code::is_valid_two_fa_code;
pub use two_fa_store::HashmapTwoFACodeStore;
pub use two_fa_store::challenge_rec;
pub use two_fa_store::codes_map;
pub use user::User;
pub use user_store::HashmapUserStore;
pub use user_store::user_rec;
pub use user_store::users_map;
pub use verify_2fa::Verify2FARequest;
pub use verify_2fa::verify_2fa;
pub use verify_token::VerifyTokenRequest;
pub use verify_token::verify_token;

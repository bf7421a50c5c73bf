//! Login. Step one validates the submitted formats (`InvalidCredentials`)
//! and then the credentials themselves (`IncorrectCredentials`; an
//! unknown email and a wrong password are indistinguishable to the
//! caller). Step two branches: without a second factor a session token
//! is minted at once; with one, a fresh challenge replaces any pending
//! challenge for the email and its code goes out through the email
//! transport — the identifier is returned to the caller, never the
//! code.

use vstd::prelude::*;

use crate::email::Email;
use crate::email::is_valid_email;
use crate::errors::AuthAPIError;
use crate::login_attempt_id::LoginAttemptId;
use crate::login_attempt_id::is_uuid_text;
use crate::mock_email_client::MockEmailClient;
use crate::password::Password;
use crate::password::is_valid_password;
use crate::secret::SecretString;
use crate::token::TOKEN_TTL_SECONDS;
use crate::token::mint;
use crate::token::spec_mint;
use crate::two_fa_code::TwoFACode;
use crate::two_fa_code::is_valid_two_fa_code;
use crate::two_fa_store::HashmapTwoFACodeStore;
use crate::user_store::HashmapUserStore;

verus! {

/// The body of a login submission.
#[derive(Debug)]
pub struct LoginRequest {
    pub email: String,
    pub password: String,
}

/// The body of a reply that asks for a second factor.
#[derive(Debug)]
pub struct LoginResponse2FA {
    pub message: String,
    pub login_attempt_id: String,
}

/// The two shapes of a successful login reply.
#[derive(Debug)]
pub enum LoginResponse {
    RegularAuth,
    TwoFactorAuth(LoginResponse2FA),
}

/// Handles a login submission. On plain success the minted session
/// token accompanies the reply for cookie attachment; on a two-factor
/// branch no token is minted and the reply carries the challenge
/// identifier.
pub fn login(
    user_store: &HashmapUserStore,
    two_fa_code_store: &mut HashmapTwoFACodeStore,
    email_client: &MockEmailClient,
    request: LoginRequest,
    secret: &str,
    now: u64,
) -> (r: Result<(LoginResponse, Option<String>), AuthAPIError>)
    requires
        user_store.wf(),
        old(two_fa_code_store).wf(),
        now + TOKEN_TTL_SECONDS < 0x10000000000000000,
    ensures
        final(two_fa_code_store).wf(),
        ({
            let e = request.email@;
            let p = request.password@;
            let users = user_store@;
            let pre = old(two_fa_code_store)@;
            let post = final(two_fa_code_store)@;
            let well_formed = is_valid_email(e) && is_valid_password(p);
            let credentials_match = users.contains_key(e) && users[e].0 == p;
            &&& !well_formed ==> (r matches Err(err) && err is InvalidCredentials && post == pre)
            &&& well_formed && !credentials_match ==> (r matches Err(err)
                && err is IncorrectCredentials && post == pre)
            &&& well_formed && credentials_match && !users[e].1 ==> (r matches Ok(pair)
                && pair.0 is RegularAuth && (pair.1 matches Some(t) && t@ == spec_mint(
                e,
                secret@,
                now,
            )) && post == pre)
            &&& well_formed && credentials_match && users[e].1 ==> {
                &&& post.contains_key(e)
                &&& is_uuid_text(post[e].0)
                &&& is_valid_two_fa_code(post[e].1)
                &&& post == pre.insert(e, post[e])
                &&& ((r matches Ok(pair) && pair.0 matches LoginResponse::TwoFactorAuth(x)
                    && x.login_attempt_id@ == post[e].0 && x.message@ == "2FA required"@
                    && pair.1 is None) || (r matches Err(err) && err is UnexpectedError))
            }
        }),
{
    let email = Email::parse(SecretString::new(request.email));
    let password = Password::parse(SecretString::new(request.password));
    let (email, password) = match (email, password) {
        (Ok(e), Ok(p)) => (e, p),
        _ => {
            return Err(AuthAPIError::InvalidCredentials);
        },
    };
    if user_store.validate_user(&email, &password).is_err() {
        return Err(AuthAPIError::IncorrectCredentials);
    }
    let user = match user_store.get_user(&email) {
        Ok(u) => u,
        Err(_) => {
            return Err(
                AuthAPIError::UnexpectedError(String::from_str("validated user not found")),
            );
        },
    };
    if user.requires_2fa {
        handle_2fa(two_fa_code_store, email_client, &user.email)
    } else {
        handle_no_2fa(&user.email, secret, now)
    }
}

/// The two-factor branch of login: write a fresh challenge over any
/// pending one, dispatch the code, reply with the identifier. A
/// transport failure surfaces as `UnexpectedError`; the challenge is
/// in the store either way.
fn handle_2fa(
    two_fa_code_store: &mut HashmapTwoFACodeStore,
    email_client: &MockEmailClient,
    email: &Email,
) -> (r: Result<(LoginResponse, Option<String>), AuthAPIError>)
    requires
        old(two_fa_code_store).wf(),
    ensures
        final(two_fa_code_store).wf(),
        ({
            let pre = old(two_fa_code_store)@;
            let post = final(two_fa_code_store)@;
            &&& post.contains_key(email@)
            &&& is_uuid_text(post[email@].0)
            &&& is_valid_two_fa_code(post[email@].1)
            &&& post == pre.insert(email@, post[email@])
            &&& (r matches Ok(pair) ==> (pair.0 matches LoginResponse::TwoFactorAuth(x)
                && x.login_attempt_id@ == post[email@].0 && x.message@ == "2FA required"@
                && pair.1 is None))
            &&& (r matches Err(e) ==> e is UnexpectedError)
        }),
{
    let login_attempt_id = LoginAttemptId::default();
    let two_fa_code = TwoFACode::default();
    match two_fa_code_store.add_code(
        email.clone(),
        login_attempt_id.clone(),
        two_fa_code.clone(),
    ) {
        Ok(()) => (),
        Err(_) => {
            return Err(
                AuthAPIError::UnexpectedError(String::from_str("failed to store the challenge")),
            );
        },
    }
    if email_client.send_email(email, "2FA Code", two_fa_code.value()).is_err() {
        return Err(AuthAPIError::UnexpectedError(String::from_str("failed to send the code")));
    }
    let response = LoginResponse2FA {
        message: String::from_str("2FA required"),
        login_attempt_id: String::from_str(login_attempt_id.value()),
    };
    Ok((LoginResponse::TwoFactorAuth(response), None))
}

/// The plain branch of login: mint a session token for the subject.
fn handle_no_2fa(email: &Email, secret: &str, now: u64) -> (r: Result<
    (LoginResponse, Option<String>),
    AuthAPIError,
>)
    requires
        now + TOKEN_TTL_SECONDS < 0x10000000000000000,
    ensures
        r matches Ok(p) && p.0 is RegularAuth && (p.1 matches Some(t) && t@ == spec_mint(
            email@,
            secret@,
            now,
        )),
{
    let token = mint(email, secret, now);
    Ok((LoginResponse::RegularAuth, Some(token)))
}

} // verus!

//! Two-factor verification. Malformed input fails before any store
//! access. The pending challenge for the email is fetched; its absence
//! is reported exactly like a mismatch (`IncorrectCredentials`), so a
//! caller cannot learn whether a challenge exists. Both the challenge
//! identifier and the code must match the stored pair. A full match
//! consumes the challenge and mints a session token; the consumed
//! challenge makes a replay of the same request fail.

use vstd::prelude::*;

use crate::email::Email;
use crate::email::is_valid_email;
use crate::errors::AuthAPIError;
use crate::login_attempt_id::LoginAttemptId;
use crate::login_attempt_id::uuid_canonical;
use crate::secret::SecretString;
use crate::token::TOKEN_TTL_SECONDS;
use crate::token::mint;
use crate::token::spec_mint;
use crate::two_fa_code::TwoFACode;
use crate::two_fa_code::is_valid_two_fa_code;
use crate::two_fa_store::HashmapTwoFACodeStore;

verus! {

/// The body of a two-factor verification submission.
#[derive(Debug)]
pub struct Verify2FARequest {
    pub email: SecretString,
    pub login_attempt_id: SecretString,
    pub two_fa_code: SecretString,
}

/// Handles a two-factor verification submission. On success the
/// challenge is consumed and the minted session token is returned for
/// cookie attachment.
pub fn verify_2fa(
    two_fa_code_store: &mut HashmapTwoFACodeStore,
    request: Verify2FARequest,
    secret: &str,
    now: u64,
) -> (r: Result<String, AuthAPIError>)
    requires
        old(two_fa_code_store).wf(),
        now + TOKEN_TTL_SECONDS < 0x10000000000000000,
    ensures
        final(two_fa_code_store).wf(),
        ({
            let e = request.email@;
            let pre = old(two_fa_code_store)@;
            let post = final(two_fa_code_store)@;
            let well_formed = is_valid_email(e) && (uuid_canonical(request.login_attempt_id@)
                is Some) && is_valid_two_fa_code(request.two_fa_code@);
            let submitted = (uuid_canonical(request.login_attempt_id@)->Some_0, request.two_fa_code@);
            &&& !well_formed ==> (r matches Err(err) && err is InvalidCredentials && post == pre)
            &&& well_formed && !pre.contains_key(e) ==> (r matches Err(err)
                && err is IncorrectCredentials && post == pre)
            &&& well_formed && pre.contains_key(e) && pre[e] != submitted ==> (r matches Err(err)
                && err is IncorrectCredentials && post == pre)
            &&& well_formed && pre.contains_key(e) && pre[e] == submitted ==> (r matches Ok(t)
                && t@ == spec_mint(e, secret@, now) && post == pre.remove(e))
        }),
{
    let email = Email::parse(request.email);
    let login_attempt_id = LoginAttemptId::parse(request.login_attempt_id);
    let two_fa_code = TwoFACode::parse(request.two_fa_code);
    let (email, login_attempt_id, two_fa_code) = match (email, login_attempt_id, two_fa_code) {
        (Ok(e), Ok(l), Ok(c)) => (e, l, c),
        _ => {
            return Err(AuthAPIError::InvalidCredentials);
        },
    };
    let (stored_login_attempt_id, stored_two_fa_code) = match two_fa_code_store.get_code(&email) {
        Ok(pair) => pair,
        Err(_) => {
            return Err(AuthAPIError::IncorrectCredentials);
        },
    };
    if stored_login_attempt_id != login_attempt_id || stored_two_fa_code != two_fa_code {
        return Err(AuthAPIError::IncorrectCredentials);
    }
    if two_fa_code_store.remove_code(email.clone()).is_err() {
        return Err(AuthAPIError::UnexpectedError(String::from_str("failed to remove 2FA code")));
    }
    Ok(mint(&email, secret, now))
}

} // verus!

//! Signup: validate the submitted email and password formats, reject
//! an email that is already registered, and persist the new record.
//! Format failures are reported before any store access, as
//! `InvalidCredentials`; an existing email as `UserAlreadyExists`.

use vstd::prelude::*;

use crate::email::Email;
use crate::email::is_valid_email;
use crate::errors::AuthAPIError;
use crate::password::Password;
use crate::password::is_valid_password;
use crate::secret::SecretString;
use crate::user::User;
use crate::user_store::HashmapUserStore;

verus! {

/// The body of a signup submission.
#[derive(Debug)]
pub struct SignupRequest {
    pub email: String,
    pub password: String,
    pub requires_2fa: bool,
}

/// The body of a successful signup reply.
#[derive(Debug)]
pub struct SignupResponse {
    pub message: String,
}

/// Handles a signup submission against the credential store.
pub fn signup(user_store: &mut HashmapUserStore, request: SignupRequest) -> (r: Result<
    SignupResponse,
    AuthAPIError,
>)
    requires
        old(user_store).wf(),
    ensures
        final(user_store).wf(),
        ({
            let e = request.email@;
            let p = request.password@;
            let pre = old(user_store)@;
            let post = final(user_store)@;
            &&& !(is_valid_email(e) && is_valid_password(p)) ==> (r matches Err(err)
                && err is InvalidCredentials && post == pre)
            &&& is_valid_email(e) && is_valid_password(p) && pre.contains_key(e) ==> (r matches Err(
                err,
            ) && err is UserAlreadyExists && post == pre)
            &&& is_valid_email(e) && is_valid_password(p) && !pre.contains_key(e) ==> (r matches Ok(
                resp,
            ) && resp.message@ == "User created successfully"@ && post == pre.insert(
                e,
                (p, request.requires_2fa),
            ))
        }),
{
    let email = Email::parse(SecretString::new(request.email));
    let password = Password::parse(SecretString::new(request.password));
    let (email, password) = match (email, password) {
        (Ok(e), Ok(p)) => (e, p),
        _ => {
            return Err(AuthAPIError::InvalidCredentials);
        },
    };
    let user = User::new(email, password, request.requires_2fa);
    if user_store.get_user(&user.email).is_ok() {
        return Err(AuthAPIError::UserAlreadyExists);
    }
    match user_store.add_user(user) {
        Ok(()) => Ok(SignupResponse { message: String::from_str("User created successfully") }),
        Err(_) => Err(
            AuthAPIError::UnexpectedError(String::from_str("failed to persist the new user")),
        ),
    }
}

} // verus!

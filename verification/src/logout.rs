//! Logout: revocation with real effect. A missing bearer token is its
//! own outcome (`MissingToken`), distinct from a token that fails the
//! combined signature, expiry and revocation check (`InvalidToken`).
//! On success the token joins the revocation store, so a second logout
//! with the same token fails with `InvalidToken`.

use vstd::prelude::*;

use crate::banned_token_store::HashsetBannedTokenStore;
use crate::errors::AuthAPIError;
use crate::secret::SecretString;
use crate::token::token_ok;
use crate::token::validate_token;

verus! {

/// Handles a logout request carrying the cookie's bearer token, if one
/// was present. The caller drops the cookie on success.
pub fn logout(
    banned_token_store: &mut HashsetBannedTokenStore,
    cookie: Option<&SecretString>,
    secret: &str,
    now: u64,
) -> (r: Result<(), AuthAPIError>)
    requires
        old(banned_token_store).wf(),
    ensures
        final(banned_token_store).wf(),
        ({
            let pre = old(banned_token_store)@;
            let post = final(banned_token_store)@;
            &&& cookie is None ==> (r matches Err(err) && err is MissingToken && post == pre)
            &&& (cookie matches Some(tok) ==> {
                &&& !(token_ok(tok@, secret@, now) && !pre.contains(tok@)) ==> (r matches Err(err)
                    && err is InvalidToken && post == pre)
                &&& token_ok(tok@, secret@, now) && !pre.contains(tok@) ==> (r matches Ok(())
                    && post == pre.insert(tok@))
            })
        }),
{
    let token = match cookie {
        None => {
            return Err(AuthAPIError::MissingToken);
        },
        Some(t) => t,
    };
    if validate_token(banned_token_store, token, secret, now).is_err() {
        return Err(AuthAPIError::InvalidToken);
    }
    match banned_token_store.add_token(token.clone()) {
        Ok(()) => Ok(()),
        Err(_) => Err(
            AuthAPIError::UnexpectedError(String::from_str("failed to record the revocation")),
        ),
    }
}

} // verus!

//! Standalone token introspection: the same combined signature, expiry
//! and revocation check that logout performs, without the revocation
//! side effect. Any resource server can confirm bearer validity here.

use vstd::prelude::*;

use crate::banned_token_store::HashsetBannedTokenStore;
use crate::errors::AuthAPIError;
use crate::secret::SecretString;
use crate::token::token_ok;
use crate::token::validate_token;

verus! {

/// The body of a token introspection request.
#[derive(Debug)]
pub struct VerifyTokenRequest {
    pub token: SecretString,
}

/// Handles a token introspection request. The store is only read.
pub fn verify_token(
    banned_token_store: &mut HashsetBannedTokenStore,
    request: VerifyTokenRequest,
    secret: &str,
    now: u64,
) -> (r: Result<(), AuthAPIError>)
    requires
        old(banned_token_store).wf(),
    ensures
        final(banned_token_store).wf(),
        final(banned_token_store)@ == old(banned_token_store)@,
        (r is Ok) == (token_ok(request.token@, secret@, now) && !old(
            banned_token_store,
        )@.contains(request.token@)),
        r matches Err(e) ==> e is InvalidToken,
{
    match validate_token(banned_token_store, &request.token, secret, now) {
        Ok(_) => Ok(()),
        Err(_) => Err(AuthAPIError::InvalidToken),
    }
}

} // verus!

//! The library's laws: properties that hold across several operations,
//! stated over the same abstract views the operations' contracts use.
//! Each law composes with those contracts: the store and engine
//! functions say how they transform the views, and the law says what
//! follows from the composition.

use vstd::prelude::*;

use crate::email::is_valid_email;
use crate::password::is_valid_password;
use crate::token::TOKEN_TTL_SECONDS;
use crate::token::lemma_mint_ok;
use crate::token::spec_mint;
use crate::token::token_ok;

verus! {

/// Law: after signing up a valid email/password pair, verifying
/// credentials for that email with the same password succeeds, and
/// with any different password it is a password mismatch — the email
/// is present, so the store never reports absence for it and nothing
/// leaks about which part failed.
///
/// `signup` ends with the credential store at
/// `users.insert(e, (p, requires_2fa))`; `validate_user` answers by
/// `contains_key` and the stored password, which this law pins down.
pub proof fn lemma_signup_then_verify_credentials(
    users: Map<Seq<char>, (Seq<char>, bool)>,
    e: Seq<char>,
    p: Seq<char>,
    other: Seq<char>,
    requires_2fa: bool,
)
    requires
        is_valid_email(e),
        is_valid_password(p),
    ensures
        users.insert(e, (p, requires_2fa)).contains_key(e),
        users.insert(e, (p, requires_2fa))[e].0 == p,
        other != p ==> users.insert(e, (p, requires_2fa))[e].0 != other,
{
}

/// Law: signing up the same email twice leaves the store exactly as
/// the first signup left it — the second call sees the email present,
/// so by `signup`'s contract it returns `UserAlreadyExists` and
/// changes nothing, and the store holds one record for that email.
pub proof fn lemma_duplicate_signup_keeps_one_record(
    users: Map<Seq<char>, (Seq<char>, bool)>,
    e: Seq<char>,
    p: Seq<char>,
    requires_2fa: bool,
)
    requires
        !users.contains_key(e),
    ensures
        users.insert(e, (p, requires_2fa)).contains_key(e),
        users.insert(e, (p, requires_2fa)).remove(e) =~= users,
{
}

/// Law: a second login for the same email before verification
/// overwrites the pending challenge entirely, so afterward exactly the
/// second pair is pending, and a verification that submits the first
/// challenge identifier mismatches whatever code accompanies it — by
/// `verify_2fa`'s contract that is `IncorrectCredentials`. The one
/// assumption is that the two identifiers differ: the fresh identifier
/// colliding with the old one is excluded.
pub proof fn lemma_second_login_invalidates_first_challenge(
    challenges: Map<Seq<char>, (Seq<char>, Seq<char>)>,
    e: Seq<char>,
    first: (Seq<char>, Seq<char>),
    second: (Seq<char>, Seq<char>),
    submitted_code: Seq<char>,
)
    requires
        first.0 != second.0,
    ensures
        challenges.insert(e, first).insert(e, second) =~= challenges.insert(e, second),
        challenges.insert(e, first).insert(e, second)[e] != (first.0, submitted_code),
{
}

/// Law: a successful two-factor verification consumes the pending
/// challenge, so an immediate repeat of the identical request finds no
/// challenge for the email — by `verify_2fa`'s contract the repeat is
/// `IncorrectCredentials`, indistinguishable from a wrong code.
pub proof fn lemma_challenge_consumed_rejects_replay(
    challenges: Map<Seq<char>, (Seq<char>, Seq<char>)>,
    e: Seq<char>,
)
    ensures
        !challenges.remove(e).contains_key(e),
{
}

/// Law of the token lifecycle: a freshly minted, unrevoked token
/// passes the combined check (introspection and logout succeed), stops
/// passing it at its expiry, and once revoked is in the revocation
/// store — so a later introspection and a second logout with the same
/// token both fail with `InvalidToken`.
pub proof fn lemma_token_lifecycle(
    sub: Seq<char>,
    secret: Seq<char>,
    now: u64,
    later: u64,
    banned: Set<Seq<char>>,
)
    requires
        now + TOKEN_TTL_SECONDS < 0x10000000000000000,
        sub.len() > 0,
    ensures
        token_ok(spec_mint(sub, secret, now), secret, now),
        token_ok(spec_mint(sub, secret, now), secret, later) == (later < now + TOKEN_TTL_SECONDS),
        banned.insert(spec_mint(sub, secret, now)).contains(spec_mint(sub, secret, now)),
{
    lemma_mint_ok(sub, secret, now, now);
    lemma_mint_ok(sub, secret, now, later);
}

} // verus!

//! The session token codec. A token is a self-contained string
//! `tag || exp || subject`: twenty decimal digits of a keyed tag over
//! the rest, twenty decimal digits of an absolute expiry in seconds,
//! then the subject. Minting signs with a server-held secret;
//! verification checks the tag and the expiry and nothing else —
//! revocation is a separate, explicit check the engine always performs
//! alongside it.

use vstd::prelude::*;

use crate::banned_token_store::HashsetBannedTokenStore;
use crate::email::Email;
use crate::errors::AuthAPIError;
use crate::secret::SecretString;
use crate::text::digit;
use crate::text::digit_char;
use crate::text::digit_to_char;
use crate::text::digit_val;
use crate::text::digits_to_nat;
use crate::text::is_digit_char;
use crate::text::push_char;

verus! {

use vstd::arithmetic::div_mod::lemma_fundamental_div_mod;
use vstd::arithmetic::div_mod::lemma_multiply_divide_lt;

/// How long a freshly minted token stays valid, in seconds.
pub const TOKEN_TTL_SECONDS: u64 = 600;

/// The seed of the keyed tag fold.
pub const MAC_SEED: u64 = 0xcbf29ce484222325;

/// The multiplier of the keyed tag fold.
pub const MAC_PRIME: u64 = 0x100000001b3;

/// Ten to the `k`th power.
pub open spec fn pow10(k: nat) -> nat
    decreases k,
{
    if k == 0 {
        1
    } else {
        10 * pow10((k - 1) as nat)
    }
}

/// The `k`-digit decimal rendering of `n`, most significant digit
/// first, zero-padded on the left; the digits of `n % pow10(k)`.
pub open spec fn fixed_digits(n: nat, k: nat) -> Seq<char>
    decreases k,
{
    if k == 0 {
        Seq::empty()
    } else {
        fixed_digits(n / 10, (k - 1) as nat).push(digit_char(n % 10))
    }
}

/// One step of the keyed tag fold.
pub open spec fn mac_step(acc: u64, c: char) -> u64 {
    (acc ^ ((c as u32) as u64)).wrapping_mul(MAC_PRIME)
}

/// The keyed tag fold over a character sequence, left to right.
pub open spec fn mac_fold(acc: u64, s: Seq<char>) -> u64
    decreases s.len(),
{
    if s.len() == 0 {
        acc
    } else {
        mac_step(mac_fold(acc, s.drop_last()), s.last())
    }
}

/// The tag of a payload under a secret: the fold is seeded, runs over
/// the secret, takes a separator step, then runs over the payload.
pub open spec fn mac64(secret: Seq<char>, payload: Seq<char>) -> u64 {
    mac_fold(mac_step(mac_fold(MAC_SEED, secret), '|'), payload)
}

/// The subject a token carries: everything after its two digit blocks.
pub open spec fn token_sub(t: Seq<char>) -> Seq<char> {
    t.subrange(40, t.len() as int)
}

/// The expiry a token carries, as the number its second digit block
/// denotes.
pub open spec fn token_exp(t: Seq<char>) -> nat {
    digits_to_nat(t.subrange(20, 40))
}

/// A token passes verification under a secret at a given time exactly
/// when: it has a nonempty subject after two twenty-digit blocks, its
/// first block is the tag of the rest under the secret, its expiry
/// fits the expiry type, and that expiry is still in the future.
pub open spec fn token_ok(t: Seq<char>, secret: Seq<char>, now: u64) -> bool {
    &&& t.len() > 40
    &&& forall|i: int| 0 <= i < 40 ==> is_digit_char(#[trigger] t[i])
    &&& digits_to_nat(t.subrange(0, 20)) == mac64(secret, t.subrange(20, t.len() as int))
    &&& token_exp(t) < 0x10000000000000000
    &&& now < token_exp(t)
}

/// The token minted for a subject under a secret at a given time.
pub open spec fn spec_mint(sub: Seq<char>, secret: Seq<char>, now: u64) -> Seq<char>
    recommends
        now + TOKEN_TTL_SECONDS < 0x10000000000000000,
{
    let payload = fixed_digits((now + TOKEN_TTL_SECONDS) as nat, 20) + sub;
    fixed_digits(mac64(secret, payload) as nat, 20) + payload
}

/// What a verified token asserts: its subject and its expiry.
#[derive(Debug)]
pub struct Claims {
    pub sub: String,
    pub exp: u64,
}

/// `pow10` grows with its exponent.
proof fn lemma_pow10_monotone(a: nat, b: nat)
    requires
        a <= b,
    ensures
        pow10(a) <= pow10(b),
    decreases b,
{
    if a < b {
        lemma_pow10_monotone(a, (b - 1) as nat);
    }
}

/// The numeric value of `pow10(20)`.
proof fn lemma_pow10_20()
    ensures
        pow10(20) == 100000000000000000000,
{
    reveal_with_fuel(pow10, 21);
    assert(pow10(20) == 100000000000000000000nat);
}

/// A fixed rendering has its width, and all its characters are digits.
proof fn lemma_fixed_digits_shape(n: nat, k: nat)
    ensures
        fixed_digits(n, k).len() == k,
        forall|i: int| 0 <= i < k ==> is_digit_char(#[trigger] fixed_digits(n, k)[i]),
    decreases k,
{
    if k > 0 {
        lemma_fixed_digits_shape(n / 10, (k - 1) as nat);
    }
}

/// Rendering a number that fits the width and reading the digits back
/// returns the number.
proof fn lemma_fixed_digits_value(n: nat, k: nat)
    requires
        n < pow10(k),
    ensures
        digits_to_nat(fixed_digits(n, k)) == n,
    decreases k,
{
    if k == 0 {
    } else {
        let f1 = fixed_digits(n / 10, (k - 1) as nat);
        let fd = fixed_digits(n, k);
        assert(fd.drop_last() =~= f1);
        assert(n < 10 * pow10((k - 1) as nat));
        lemma_multiply_divide_lt(n as int, 10, pow10((k - 1) as nat) as int);
        lemma_fixed_digits_value(n / 10, (k - 1) as nat);
        lemma_fundamental_div_mod(n as int, 10);
        assert(digit_val(digit_char(n % 10)) == n % 10);
    }
}

/// One step of the keyed tag fold.
fn mac_step_exec(acc: u64, c: char) -> (r: u64)
    ensures
        r == mac_step(acc, c),
{
    (acc ^ ((c as u32) as u64)).wrapping_mul(MAC_PRIME)
}

/// The keyed tag fold over the characters of `s` from position `from`.
fn mac_fold_str(acc0: u64, s: &str, from: usize) -> (r: u64)
    requires
        from <= s@.len(),
    ensures
        r == mac_fold(acc0, s@.subrange(from as int, s@.len() as int)),
{
    let n = s.unicode_len();
    let mut acc = acc0;
    let mut i = from;
    proof {
        assert(s@.subrange(from as int, from as int).len() == 0);
    }
    while i < n
        invariant
            from <= i <= n,
            n == s@.len(),
            acc == mac_fold(acc0, s@.subrange(from as int, i as int)),
        decreases n - i,
    {
        let c = s.get_char(i);
        acc = mac_step_exec(acc, c);
        proof {
            assert(s@.subrange(from as int, i + 1).drop_last() =~= s@.subrange(
                from as int,
                i as int,
            ));
        }
        i = i + 1;
    }
    acc
}

/// Appends the `k`-digit decimal rendering of `n`.
fn push_fixed_digits(s: &mut String, n: u64, k: usize)
    ensures
        final(s)@ == old(s)@ + fixed_digits(n as nat, k as nat),
    decreases k,
{
    if k > 0 {
        push_fixed_digits(s, n / 10, k - 1);
        push_char(s, digit_to_char(n % 10));
        proof {
            assert(final(s)@ =~= old(s)@ + fixed_digits(n as nat, k as nat));
        }
    } else {
        proof {
            assert(old(s)@ + fixed_digits(n as nat, 0nat) =~= old(s)@);
        }
    }
}

/// Reads twenty characters from position `from` as a decimal number,
/// or reports that one of them is no digit.
fn parse_fixed20(s: &str, from: usize) -> (r: Option<u128>)
    requires
        from + 20 <= s@.len(),
    ensures
        (r is Some) == (forall|i: int| from <= i < from + 20 ==> is_digit_char(#[trigger] s@[i])),
        r matches Some(v) ==> v as nat == digits_to_nat(s@.subrange(from as int, from as int + 20)),
{
    let n = s.unicode_len();
    let mut acc: u128 = 0;
    let mut i: usize = 0;
    proof {
        assert(s@.subrange(from as int, from as int).len() == 0);
    }
    while i < 20
        invariant
            i <= 20,
            from + 20 <= s@.len(),
            n == s@.len(),
            forall|j: int| from <= j < from + i ==> is_digit_char(#[trigger] s@[j]),
            acc as nat == digits_to_nat(s@.subrange(from as int, from as int + i as int)),
            acc < pow10(i as nat),
        decreases 20 - i,
    {
        let c = s.get_char(from + i);
        if !digit(c) {
            return None;
        }
        proof {
            lemma_pow10_monotone(i as nat + 1, 20);
            lemma_pow10_20();
        }
        acc = acc * 10 + (((c as u32) - 48) as u128);
        proof {
            assert(s@.subrange(from as int, from as int + i + 1).drop_last() =~= s@.subrange(
                from as int,
                from as int + i as int,
            ));
        }
        i = i + 1;
    }
    Some(acc)
}

/// Mints a signed, time-bounded token binding the subject to an
/// absolute expiry `TOKEN_TTL_SECONDS` from now.
pub fn mint(email: &Email, secret: &str, now: u64) -> (t: String)
    requires
        now + TOKEN_TTL_SECONDS < 0x10000000000000000,
    ensures
        t@ == spec_mint(email@, secret@, now),
{
    let exp = now + TOKEN_TTL_SECONDS;
    let mut payload = String::new();
    push_fixed_digits(&mut payload, exp, 20);
    payload.append(email.value());
    let ghost payload_view = fixed_digits(exp as nat, 20) + email@;
    proof {
        assert(payload@ =~= payload_view);
    }
    let seeded = mac_fold_str(MAC_SEED, secret, 0);
    proof {
        assert(secret@.subrange(0, secret@.len() as int) =~= secret@);
    }
    let tag = mac_fold_str(mac_step_exec(seeded, '|'), payload.as_str(), 0);
    proof {
        assert(payload@.subrange(0, payload@.len() as int) =~= payload@);
    }
    let mut t = String::new();
    push_fixed_digits(&mut t, tag, 20);
    t.append(payload.as_str());
    proof {
        assert(t@ =~= spec_mint(email@, secret@, now));
    }
    t
}

/// Verifies a token's tag and expiry against the secret and the
/// current time; revocation is checked elsewhere. Returns the claims
/// exactly when [`token_ok`] holds.
pub fn verify(token: &str, secret: &str, now: u64) -> (r: Option<Claims>)
    ensures
        (r is Some) == token_ok(token@, secret@, now),
        r matches Some(c) ==> c.sub@ == token_sub(token@) && c.exp as nat == token_exp(token@),
{
    let n = token.unicode_len();
    if n < 41 {
        return None;
    }
    let tag = match parse_fixed20(token, 0) {
        Some(v) => v,
        None => {
            return None;
        },
    };
    let expv = match parse_fixed20(token, 20) {
        Some(v) => v,
        None => {
            return None;
        },
    };
    if expv >= 0x10000000000000000u128 {
        return None;
    }
    let seeded = mac_fold_str(MAC_SEED, secret, 0);
    proof {
        assert(secret@.subrange(0, secret@.len() as int) =~= secret@);
    }
    let m = mac_fold_str(mac_step_exec(seeded, '|'), token, 20);
    if tag != (m as u128) {
        return None;
    }
    if !((now as u128) < expv) {
        return None;
    }
    let sub = token.substring_char(40, n);
    Some(Claims { sub: String::from_str(sub), exp: expv as u64 })
}

/// The combined bearer check: the token must verify under the secret
/// and must not be recorded as revoked. Any failure of either is one
/// undifferentiated `InvalidToken`. The store is only read.
pub fn validate_token(
    banned_token_store: &mut HashsetBannedTokenStore,
    token: &SecretString,
    secret: &str,
    now: u64,
) -> (r: Result<Claims, AuthAPIError>)
    requires
        old(banned_token_store).wf(),
    ensures
        final(banned_token_store).wf(),
        final(banned_token_store)@ == old(banned_token_store)@,
        (r is Ok) == (token_ok(token@, secret@, now) && !old(banned_token_store)@.contains(
            token@,
        )),
        r matches Ok(c) ==> c.sub@ == token_sub(token@) && c.exp as nat == token_exp(token@),
        r matches Err(e) ==> e is InvalidToken,
{
    match verify(token.expose_secret().as_str(), secret, now) {
        Some(claims) => {
            match banned_token_store.contains_token(token.clone()) {
                Ok(banned) => {
                    if banned {
                        Err(AuthAPIError::InvalidToken)
                    } else {
                        Ok(claims)
                    }
                },
                Err(_) => Err(AuthAPIError::InvalidToken),
            }
        },
        None => Err(AuthAPIError::InvalidToken),
    }
}

/// A minted token passes verification under its secret exactly until
/// its expiry, and it carries the subject and the expiry it was minted
/// with.
#[verifier::rlimit(50)]
pub proof fn lemma_mint_ok(sub: Seq<char>, secret: Seq<char>, now: u64, later: u64)
    requires
        now + TOKEN_TTL_SECONDS < 0x10000000000000000,
        sub.len() > 0,
    ensures
        token_ok(spec_mint(sub, secret, now), secret, later) == (later < now + TOKEN_TTL_SECONDS),
        token_sub(spec_mint(sub, secret, now)) == sub,
        token_exp(spec_mint(sub, secret, now)) == now + TOKEN_TTL_SECONDS,
{
    let exp = (now + TOKEN_TTL_SECONDS) as nat;
    let payload = fixed_digits(exp, 20) + sub;
    let tag = mac64(secret, payload) as nat;
    let t = fixed_digits(tag, 20) + payload;
    lemma_fixed_digits_shape(tag, 20);
    lemma_fixed_digits_shape(exp, 20);
    lemma_pow10_20();
    assert(tag < pow10(20));
    assert(exp < pow10(20));
    lemma_fixed_digits_value(tag, 20);
    lemma_fixed_digits_value(exp, 20);
    assert(t.len() == 40 + sub.len());
    assert(t.subrange(0, 20) =~= fixed_digits(tag, 20));
    assert(t.subrange(20, 40) =~= fixed_digits(exp, 20));
    assert(t.subrange(20, t.len() as int) =~= payload);
    assert(t.subrange(40, t.len() as int) =~= sub);
    assert forall|i: int| 0 <= i < 40 implies is_digit_char(#[trigger] t[i]) by {
        if i < 20 {
            assert(t[i] == fixed_digits(tag, 20)[i]);
        } else {
            assert(t[i] == payload[i - 20]);
            assert(payload[i - 20] == fixed_digits(exp, 20)[i - 20]);
        }
    }
    assert(digits_to_nat(t.subrange(0, 20)) == tag);
    assert(token_exp(t) == exp);
}

} // verus!

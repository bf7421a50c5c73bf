//! The challenge identifier value type: a UUID in canonical textual
//! form, generated fresh for every login attempt that requires a
//! second factor. Parsing and generation go through the `uuid` crate;
//! the library only states the canonical shape of what comes back.

use vstd::prelude::*;

use crate::secret::SecretString;
use crate::text::is_digit_char;

verus! {

/// A lowercase hexadecimal digit.
pub open spec fn is_hex_lower_char(c: char) -> bool {
    is_digit_char(c) || (97 <= c as u32 <= 102)
}

/// Canonical UUID text: 36 characters, hyphens at positions 8, 13, 18
/// and 23, lowercase hexadecimal digits everywhere else.
pub open spec fn is_uuid_text(s: Seq<char>) -> bool {
    &&& s.len() == 36
    &&& forall|i: int|
        0 <= i < 36 ==> (if i == 8 || i == 13 || i == 18 || i == 23 {
            (#[trigger] s[i]) as u32 == 45  // '-'
        } else {
            is_hex_lower_char(s[i])
        })
}

/// What `uuid::Uuid::parse_str` followed by re-rendering yields for a
/// given input: `None` where the input parses as no UUID, otherwise
/// the canonical text of the UUID it denotes.
pub uninterp spec fn uuid_canonical(s: Seq<char>) -> Option<Seq<char>>;

/// Relies on `uuid::Uuid::parse_str` and the `Display` form of `Uuid`:
/// parsing accepts the crate's documented textual forms, and
/// re-rendering gives the canonical lowercase hyphenated text, which
/// for input already in that form is the input itself.
#[verifier::external_body]
fn uuid_normalize(s: &str) -> (r: Option<String>)
    ensures
        r is None ==> uuid_canonical(s@) is None,
        r matches Some(t) ==> uuid_canonical(s@) == Some(t@),
        r matches Some(t) ==> is_uuid_text(t@),
        r is None ==> !is_uuid_text(s@),
        r matches Some(t) ==> (is_uuid_text(s@) ==> t@ == s@),
{
    match uuid::Uuid::parse_str(s) {
        Ok(u) => Some(u.to_string()),
        Err(_) => None,
    }
}

/// Relies on `uuid::Uuid::new_v4` and the `Display` form of `Uuid`: a
/// fresh random UUID in canonical lowercase hyphenated text. Nothing
/// relates two calls.
#[verifier::external_body]
fn uuid_new_v4() -> (r: String)
    ensures
        is_uuid_text(r@),
{
    uuid::Uuid::new_v4().to_string()
}

/// A validated challenge identifier in canonical UUID text. Values of
/// this type always satisfy [`is_uuid_text`]. Two identifiers are
/// equal when their characters are.
#[derive(Debug)]
pub struct LoginAttemptId {
    inner: SecretString,
}

#[verifier::type_invariant]
pub open spec fn login_attempt_id_wf(l: LoginAttemptId) -> bool {
    is_uuid_text(l@)
}

impl View for LoginAttemptId {
    type V = Seq<char>;

    closed spec fn view(&self) -> Seq<char> {
        self.inner@
    }
}

impl LoginAttemptId {
    /// Accepts the candidate exactly when the `uuid` crate parses it,
    /// and normalizes it to canonical text; canonical input comes back
    /// unchanged.
    pub fn parse(id: SecretString) -> (r: Result<LoginAttemptId, String>)
        ensures
            uuid_canonical(id@) matches Some(t) ==> (r matches Ok(l) && l@ == t),
            uuid_canonical(id@) is None ==> (r matches Err(m) && m@
                == "Login Attempt ID doesn't match with UUID format"@),
            is_uuid_text(id@) ==> (r matches Ok(l) && l@ == id@),
    {
        match uuid_normalize(id.expose_secret().as_str()) {
            Some(t) => Ok(LoginAttemptId { inner: SecretString::new(t) }),
            None => Err(String::from_str("Login Attempt ID doesn't match with UUID format")),
        }
    }

    /// The wrapped identifier, exposed deliberately.
    pub fn value(&self) -> (r: &str)
        ensures
            r@ == self@,
    {
        self.inner.expose_secret().as_str()
    }
}

impl Default for LoginAttemptId {
    /// A fresh random identifier.
    fn default() -> (r: Self)
        ensures
            is_uuid_text(r@),
    {
        LoginAttemptId { inner: SecretString::new(uuid_new_v4()) }
    }
}

impl Clone for LoginAttemptId {
    fn clone(&self) -> (r: Self)
        ensures
            r@ == self@,
    {
        proof {
            use_type_invariant(self);
        }
        LoginAttemptId { inner: self.inner.clone() }
    }
}

impl PartialEq for LoginAttemptId {
    fn eq(&self, other: &Self) -> (r: bool) {
        *self.inner.expose_secret() == *other.inner.expose_secret()
    }
}

impl vstd::std_specs::cmp::PartialEqSpecImpl for LoginAttemptId {
    open spec fn obeys_eq_spec() -> bool {
        true
    }

    open spec fn eq_spec(&self, other: &Self) -> bool {
        self@ == other@
    }
}

} // verus!

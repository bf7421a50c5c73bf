//! The one-time code value type: a string of exactly six decimal
//! digits, generated fresh for each two-factor challenge. Leading
//! zeros are allowed, matching the generator, which draws six
//! independent digits.

use vstd::prelude::*;

use crate::secret::SecretString;
use crate::text::digit;
use crate::text::digit_to_char;
use crate::text::is_digit_char;
use crate::text::push_char;

verus! {

/// A one-time code is well formed when it is exactly six decimal
/// digits.
pub open spec fn is_valid_two_fa_code(s: Seq<char>) -> bool {
    &&& s.len() == 6
    &&& forall|i: int| 0 <= i < 6 ==> is_digit_char(#[trigger] s[i])
}

/// A validated one-time code. Values of this type always satisfy
/// [`is_valid_two_fa_code`]; validity is checked at construction and
/// never again. Two codes are equal when their characters are.
#[derive(Debug)]
pub struct TwoFACode {
    inner: SecretString,
}

#[verifier::type_invariant]
pub open spec fn two_fa_code_wf(c: TwoFACode) -> bool {
    is_valid_two_fa_code(c@)
}

impl View for TwoFACode {
    type V = Seq<char>;

    closed spec fn view(&self) -> Seq<char> {
        self.inner@
    }
}

impl TwoFACode {
    /// Accepts the candidate exactly when it is six characters long
    /// and all of them are digits; the two failures are told apart.
    pub fn parse(code: SecretString) -> (r: Result<TwoFACode, String>)
        ensures
            code@.len() != 6 ==> (r matches Err(m) && m@ == "2FA Code must be a 6-digit number"@),
            code@.len() == 6 && !is_valid_two_fa_code(code@) ==> (r matches Err(m) && m@
                == "2FA Code must be a number"@),
            is_valid_two_fa_code(code@) ==> (r matches Ok(c) && c@ == code@),
    {
        let s = code.expose_secret().as_str();
        if s.unicode_len() != 6 {
            return Err(String::from_str("2FA Code must be a 6-digit number"));
        }
        let mut i: usize = 0;
        while i < 6
            invariant
                i <= 6,
                code@.len() == 6,
                s@ == code@,
                forall|j: int| 0 <= j < i ==> is_digit_char(#[trigger] s@[j]),
            decreases 6 - i,
        {
            if !digit(s.get_char(i)) {
                return Err(String::from_str("2FA Code must be a number"));
            }
            i = i + 1;
        }
        Ok(TwoFACode { inner: code })
    }

    /// The wrapped code, exposed deliberately.
    pub fn value(&self) -> (r: &str)
        ensures
            r@ == self@,
    {
        self.inner.expose_secret().as_str()
    }
}

/// Relies on `rand::random_range`: a uniform draw from `0..10`, always
/// within the range. Nothing relates two calls.
#[verifier::external_body]
fn random_digit() -> (r: u64)
    ensures
        r < 10,
{
    rand::random_range(0..10u64)
}

impl Default for TwoFACode {
    /// A fresh code of six independently drawn digits.
    fn default() -> (r: Self)
        ensures
            is_valid_two_fa_code(r@),
    {
        let mut s = String::new();
        let mut i: usize = 0;
        while i < 6
            invariant
                i <= 6,
                s@.len() == i,
                forall|j: int| 0 <= j < i ==> is_digit_char(#[trigger] s@[j]),
            decreases 6 - i,
        {
            let d = random_digit();
            push_char(&mut s, digit_to_char(d));
            i = i + 1;
        }
        TwoFACode { inner: SecretString::new(s) }
    }
}

impl Clone for TwoFACode {
    fn clone(&self) -> (r: Self)
        ensures
            r@ == self@,
    {
        proof {
            use_type_invariant(self);
        }
        TwoFACode { inner: self.inner.clone() }
    }
}

impl PartialEq for TwoFACode {
    fn eq(&self, other: &Self) -> (r: bool) {
        *self.inner.expose_secret() == *other.inner.expose_secret()
    }
}

impl vstd::std_specs::cmp::PartialEqSpecImpl for TwoFACode {
    open spec fn obeys_eq_spec() -> bool {
        true
    }

    open spec fn eq_spec(&self, other: &Self) -> bool {
        self@ == other@
    }
}

} // verus!

//! The password value type: a string accepted only when it is long
//! enough, held behind a wrapper that never prints itself. A password
//! is held only ephemerally; the stores compare it through their own
//! verify capability.

use vstd::prelude::*;

use crate::secret::SecretString;

verus! {

/// The least number of characters a password must have.
pub const PASSWORD_MIN_CHARS: usize = 8;

/// A password is well formed when it has at least eight characters.
/// No further rule restricts its characters.
pub open spec fn is_valid_password(s: Seq<char>) -> bool {
    s.len() >= PASSWORD_MIN_CHARS
}

/// A validated password. Values of this type always satisfy
/// [`is_valid_password`]; validity is checked at construction and
/// never again. Two passwords are equal when their characters are.
#[derive(Debug)]
pub struct Password {
    inner: SecretString,
}

#[verifier::type_invariant]
pub open spec fn password_wf(p: Password) -> bool {
    is_valid_password(p@)
}

impl View for Password {
    type V = Seq<char>;

    closed spec fn view(&self) -> Seq<char> {
        self.inner@
    }
}

impl Password {
    /// Accepts the candidate exactly when it is a well-formed password.
    pub fn parse(password: SecretString) -> (r: Result<Password, String>)
        ensures
            is_valid_password(password@) ==> (r matches Ok(p) && p@ == password@),
            !is_valid_password(password@) ==> (r matches Err(m) && m@
                == "Password doesn't fill the requirements"@),
    {
        if password.expose_secret().as_str().unicode_len() >= PASSWORD_MIN_CHARS {
            Ok(Password { inner: password })
        } else {
            Err(String::from_str("Password doesn't fill the requirements"))
        }
    }

    /// The wrapped string, exposed deliberately.
    pub fn value(&self) -> (r: &str)
        ensures
            r@ == self@,
    {
        self.inner.expose_secret().as_str()
    }
}

impl Clone for Password {
    fn clone(&self) -> (r: Self)
        ensures
            r@ == self@,
    {
        proof {
            use_type_invariant(self);
        }
        Password { inner: self.inner.clone() }
    }
}

impl PartialEq for Password {
    fn eq(&self, other: &Self) -> (r: bool) {
        *self.inner.expose_secret() == *other.inner.expose_secret()
    }
}

impl vstd::std_specs::cmp::PartialEqSpecImpl for Password {
    open spec fn obeys_eq_spec() -> bool {
        true
    }

    open spec fn eq_spec(&self, other: &Self) -> bool {
        self@ == other@
    }
}

} // verus!

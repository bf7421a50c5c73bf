//! A user record: a validated email, a validated password, and
//! whether login must go through a second factor. Records are created
//! at signup and never changed.

use vstd::prelude::*;

use crate::email::Email;
use crate::password::Password;

verus! {

/// One registered user, owned by the credential store.
#[derive(Debug)]
pub struct User {
    pub email: Email,
    pub password: Password,
    pub requires_2fa: bool,
}

impl User {
    /// Builds a record from already-validated parts.
    pub fn new(email: Email, password: Password, requires_2fa: bool) -> (r: User)
        ensures
            r.email@ == email@,
            r.password@ == password@,
            r.requires_2fa == requires_2fa,
    {
        User { email, password, requires_2fa }
    }
}

impl Clone for User {
    fn clone(&self) -> (r: Self)
        ensures
            r.email@ == self.email@,
            r.password@ == self.password@,
            r.requires_2fa == self.requires_2fa,
    {
        User {
            email: self.email.clone(),
            password: self.password.clone(),
            requires_2fa: self.requires_2fa,
        }
    }
}

} // verus!

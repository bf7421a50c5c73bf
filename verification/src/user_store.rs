//! The in-memory credential store: the reference backend of the
//! credential store capability. It holds at most one record per email
//! and verifies a candidate password against the stored one.

use vstd::prelude::*;

use crate::email::Email;
use crate::errors::UserStoreError;
use crate::password::Password;
use crate::user::User;

verus! {

/// The record a stored user contributes to the store's abstract map:
/// its password characters and its second-factor flag.
pub open spec fn user_rec(u: User) -> (Seq<char>, bool) {
    (u.password@, u.requires_2fa)
}

/// The abstract content of a user sequence: a map from email
/// characters to the record stored under them.
pub open spec fn users_map(s: Seq<User>) -> Map<Seq<char>, (Seq<char>, bool)>
    decreases s.len(),
{
    if s.len() == 0 {
        Map::empty()
    } else {
        users_map(s.drop_last()).insert(s.last().email@, user_rec(s.last()))
    }
}

/// No two records share an email.
pub open spec fn emails_unique(s: Seq<User>) -> bool {
    forall|i: int, j: int| 0 <= i < j < s.len() ==> s[i].email@ != s[j].email@
}

/// A key no record carries is not in the map.
proof fn lemma_users_map_no_key(s: Seq<User>, e: Seq<char>)
    requires
        forall|i: int| 0 <= i < s.len() ==> (#[trigger] s[i]).email@ != e,
    ensures
        !users_map(s).contains_key(e),
    decreases s.len(),
{
    if s.len() > 0 {
        lemma_users_map_no_key(s.drop_last(), e);
    }
}

/// A record whose email no later record repeats decides the map at
/// its key.
proof fn lemma_users_map_index(s: Seq<User>, i: int)
    requires
        0 <= i < s.len(),
        forall|j: int| i < j < s.len() ==> (#[trigger] s[j]).email@ != s[i].email@,
    ensures
        users_map(s).contains_key(s[i].email@),
        users_map(s)[s[i].email@] == user_rec(s[i]),
    decreases s.len(),
{
    if i < s.len() - 1 {
        lemma_users_map_index(s.drop_last(), i);
    }
}

/// The in-memory credential store.
#[derive(Debug)]
pub struct HashmapUserStore {
    users: Vec<User>,
}

impl View for HashmapUserStore {
    type V = Map<Seq<char>, (Seq<char>, bool)>;

    closed spec fn view(&self) -> Map<Seq<char>, (Seq<char>, bool)> {
        users_map(self.users@)
    }
}

impl HashmapUserStore {
    /// The store's internal invariant: one record per email.
    pub closed spec fn wf(&self) -> bool {
        emails_unique(self.users@)
    }

    /// Creates a user record, unless its email is already present; the
    /// rest of the store is untouched either way.
    pub fn add_user(&mut self, user: User) -> (r: Result<(), UserStoreError>)
        requires
            old(self).wf(),
        ensures
            final(self).wf(),
            old(self)@.contains_key(user.email@) ==> (r matches Err(e) && e
                == UserStoreError::UserAlreadyExists && final(self)@ == old(self)@),
            !old(self)@.contains_key(user.email@) ==> (r matches Ok(()) && final(self)@ == old(
                self,
            )@.insert(user.email@, user_rec(user))),
    {
        if self.get_user(&user.email).is_ok() {
            Err(UserStoreError::UserAlreadyExists)
        } else {
            proof {
                if exists|i: int|
                    0 <= i < self.users@.len() && (#[trigger] self.users@[i]).email@
                        == user.email@ {
                    let i = choose|i: int|
                        0 <= i < self.users@.len() && (#[trigger] self.users@[i]).email@
                            == user.email@;
                    lemma_users_map_index(self.users@, i);
                }
            }
            let ghost pre = self.users@;
            self.users.push(user);
            proof {
                assert(self.users@.drop_last() =~= pre);
            }
            Ok(())
        }
    }

    /// Fetches a copy of the record under the email, or reports that
    /// none exists.
    pub fn get_user(&self, email: &Email) -> (r: Result<User, UserStoreError>)
        requires
            self.wf(),
        ensures
            self@.contains_key(email@) ==> (r matches Ok(u) && u.email@ == email@ && user_rec(u)
                == self@[email@]),
            !self@.contains_key(email@) ==> (r matches Err(e) && e
                == UserStoreError::UserNotFound),
    {
        let ghost s = self.users@;
        let n = self.users.len();
        let mut i: usize = 0;
        while i < n
            invariant
                i <= n,
                n == s.len(),
                s == self.users@,
                self.wf(),
                emails_unique(s),
                forall|j: int| 0 <= j < i ==> (#[trigger] s[j]).email@ != email@,
            decreases n - i,
        {
            let u = &self.users[i];
            if u.email == *email {
                proof {
                    lemma_users_map_index(s, i as int);
                }
                return Ok(u.clone());
            }
            i = i + 1;
        }
        proof {
            lemma_users_map_no_key(s, email@);
        }
        Err(UserStoreError::UserNotFound)
    }

    /// Verifies a candidate password. An unknown email and a wrong
    /// password are reported apart here; the engine collapses them so
    /// a caller of the service cannot tell which failed.
    pub fn validate_user(&self, email: &Email, password: &Password) -> (r: Result<
        (),
        UserStoreError,
    >)
        requires
            self.wf(),
        ensures
            !self@.contains_key(email@) ==> (r matches Err(e) && e
                == UserStoreError::UserNotFound),
            self@.contains_key(email@) && self@[email@].0 == password@ ==> r matches Ok(()),
            self@.contains_key(email@) && self@[email@].0 != password@ ==> (r matches Err(e) && e
                == UserStoreError::InvalidCredentials),
    {
        match self.get_user(email) {
            Ok(user) => {
                if user.password == *password {
                    Ok(())
                } else {
                    Err(UserStoreError::InvalidCredentials)
                }
            },
            Err(_) => Err(UserStoreError::UserNotFound),
        }
    }
}

impl Default for HashmapUserStore {
    /// An empty store.
    fn default() -> (r: Self)
        ensures
            r.wf(),
            r@ == Map::<Seq<char>, (Seq<char>, bool)>::empty(),
    {
        HashmapUserStore { users: Vec::new() }
    }
}

} // verus!

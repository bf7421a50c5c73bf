//! The in-memory two-factor challenge store: the reference backend of
//! the challenge store capability. It holds at most one pending
//! challenge per email; writing a new challenge for an email replaces
//! the old one entirely, so only the most recent login attempt's pair
//! is ever valid.

use vstd::prelude::*;

use crate::email::Email;
use crate::errors::TwoFACodeStoreError;
use crate::login_attempt_id::LoginAttemptId;
use crate::two_fa_code::TwoFACode;

verus! {

/// The pair a pending challenge contributes to the store's abstract
/// map: the challenge identifier's and the code's characters.
pub open spec fn challenge_rec(c: (Email, LoginAttemptId, TwoFACode)) -> (Seq<char>, Seq<char>) {
    (c.1@, c.2@)
}

/// The abstract content of a challenge sequence: a map from email
/// characters to the pending pair stored under them.
pub open spec fn codes_map(s: Seq<(Email, LoginAttemptId, TwoFACode)>) -> Map<
    Seq<char>,
    (Seq<char>, Seq<char>),
>
    decreases s.len(),
{
    if s.len() == 0 {
        Map::empty()
    } else {
        codes_map(s.drop_last()).insert(s.last().0@, challenge_rec(s.last()))
    }
}

/// No two pending challenges share an email.
pub open spec fn challenge_emails_unique(s: Seq<(Email, LoginAttemptId, TwoFACode)>) -> bool {
    forall|i: int, j: int| 0 <= i < j < s.len() ==> s[i].0@ != s[j].0@
}

/// A key no entry carries is not in the map.
proof fn lemma_codes_map_no_key(s: Seq<(Email, LoginAttemptId, TwoFACode)>, e: Seq<char>)
    requires
        forall|i: int| 0 <= i < s.len() ==> (#[trigger] s[i]).0@ != e,
    ensures
        !codes_map(s).contains_key(e),
    decreases s.len(),
{
    if s.len() > 0 {
        lemma_codes_map_no_key(s.drop_last(), e);
    }
}

/// An entry whose email no later entry repeats decides the map at its
/// key.
proof fn lemma_codes_map_index(s: Seq<(Email, LoginAttemptId, TwoFACode)>, i: int)
    requires
        0 <= i < s.len(),
        forall|j: int| i < j < s.len() ==> (#[trigger] s[j]).0@ != s[i].0@,
    ensures
        codes_map(s).contains_key(s[i].0@),
        codes_map(s)[s[i].0@] == challenge_rec(s[i]),
    decreases s.len(),
{
    if i < s.len() - 1 {
        lemma_codes_map_index(s.drop_last(), i);
    }
}

/// Taking out the entry at `i` takes its key out of the map.
proof fn lemma_codes_map_remove(s: Seq<(Email, LoginAttemptId, TwoFACode)>, i: int)
    requires
        0 <= i < s.len(),
        challenge_emails_unique(s),
    ensures
        codes_map(s.remove(i)) =~= codes_map(s).remove(s[i].0@),
    decreases s.len(),
{
    if i == s.len() - 1 {
        assert(s.remove(i) =~= s.drop_last());
        lemma_codes_map_no_key(s.drop_last(), s[i].0@);
    } else {
        let s2 = s.remove(i);
        assert(s2.drop_last() =~= s.drop_last().remove(i));
        lemma_codes_map_remove(s.drop_last(), i);
    }
}

/// The in-memory challenge store.
#[derive(Debug)]
pub struct HashmapTwoFACodeStore {
    codes: Vec<(Email, LoginAttemptId, TwoFACode)>,
}

impl View for HashmapTwoFACodeStore {
    type V = Map<Seq<char>, (Seq<char>, Seq<char>)>;

    closed spec fn view(&self) -> Map<Seq<char>, (Seq<char>, Seq<char>)> {
        codes_map(self.codes@)
    }
}

impl HashmapTwoFACodeStore {
    /// The store's internal invariant: one pending challenge per email.
    pub closed spec fn wf(&self) -> bool {
        challenge_emails_unique(self.codes@)
    }

    /// The index of the entry under the email, if any.
    fn find_index(&self, email: &Email) -> (r: Option<usize>)
        requires
            self.wf(),
        ensures
            r matches Some(i) ==> i < self.codes@.len() && self.codes@[i as int].0@ == email@,
            r is None ==> !self@.contains_key(email@),
    {
        let ghost s = self.codes@;
        let n = self.codes.len();
        let mut i: usize = 0;
        while i < n
            invariant
                i <= n,
                n == s.len(),
                s == self.codes@,
                forall|j: int| 0 <= j < i ==> (#[trigger] s[j]).0@ != email@,
            decreases n - i,
        {
            if self.codes[i].0 == *email {
                return Some(i);
            }
            i = i + 1;
        }
        proof {
            lemma_codes_map_no_key(s, email@);
        }
        None
    }

    /// Writes the pending challenge for the email, replacing any
    /// previous one entirely. Always succeeds in this backend.
    pub fn add_code(
        &mut self,
        email: Email,
        login_attempt_id: LoginAttemptId,
        code: TwoFACode,
    ) -> (r: Result<(), TwoFACodeStoreError>)
        requires
            old(self).wf(),
        ensures
            final(self).wf(),
            r matches Ok(()),
            final(self)@ == old(self)@.insert(email@, (login_attempt_id@, code@)),
    {
        let ghost e = email@;
        match self.find_index(&email) {
            Some(i) => {
                let ghost pre = self.codes@;
                proof {
                    lemma_codes_map_remove(pre, i as int);
                    let mid = pre.remove(i as int);
                    assert forall|j: int| 0 <= j < mid.len() implies (#[trigger] mid[j]).0@
                        != e by {
                        if j < i {
                            assert(mid[j] == pre[j]);
                        } else {
                            assert(mid[j] == pre[j + 1]);
                        }
                    }
                    assert(challenge_emails_unique(mid)) by {
                        assert forall|a: int, b: int| 0 <= a < b < mid.len() implies mid[a].0@
                            != mid[b].0@ by {
                            assert(mid[a] == if a < i {
                                pre[a]
                            } else {
                                pre[a + 1]
                            });
                            assert(mid[b] == if b < i {
                                pre[b]
                            } else {
                                pre[b + 1]
                            });
                        }
                    }
                }
                self.codes.remove(i);
                let ghost mid = self.codes@;
                self.codes.push((email, login_attempt_id, code));
                proof {
                    assert(self.codes@.drop_last() =~= mid);
                    assert(codes_map(self.codes@) =~= codes_map(pre).insert(
                        e,
                        (login_attempt_id@, code@),
                    ));
                }
            },
            None => {
                proof {
                    if exists|i: int|
                        0 <= i < self.codes@.len() && (#[trigger] self.codes@[i]).0@ == e {
                        let i = choose|i: int|
                            0 <= i < self.codes@.len() && (#[trigger] self.codes@[i]).0@ == e;
                        lemma_codes_map_index(self.codes@, i);
                    }
                }
                let ghost pre = self.codes@;
                self.codes.push((email, login_attempt_id, code));
                proof {
                    assert(self.codes@.drop_last() =~= pre);
                }
            },
        }
        Ok(())
    }

    /// Reads the pending challenge for the email without consuming it;
    /// absence is `LoginAttemptIdNotFound`.
    pub fn get_code(&mut self, email: &Email) -> (r: Result<
        (LoginAttemptId, TwoFACode),
        TwoFACodeStoreError,
    >)
        requires
            old(self).wf(),
        ensures
            final(self).wf(),
            final(self)@ == old(self)@,
            old(self)@.contains_key(email@) ==> (r matches Ok(p) && (p.0@, p.1@) == old(
                self,
            )@[email@]),
            !old(self)@.contains_key(email@) ==> (r matches Err(e) && e
                is LoginAttemptIdNotFound),
    {
        match self.find_index(email) {
            Some(i) => {
                proof {
                    lemma_codes_map_index(self.codes@, i as int);
                }
                let entry = &self.codes[i];
                Ok((entry.1.clone(), entry.2.clone()))
            },
            None => Err(TwoFACodeStoreError::LoginAttemptIdNotFound),
        }
    }

    /// Removes the pending challenge for the email; absence of one to
    /// remove is `LoginAttemptIdNotFound`.
    pub fn remove_code(&mut self, email: Email) -> (r: Result<(), TwoFACodeStoreError>)
        requires
            old(self).wf(),
        ensures
            final(self).wf(),
            old(self)@.contains_key(email@) ==> (r matches Ok(()) && final(self)@ == old(
                self,
            )@.remove(email@)),
            !old(self)@.contains_key(email@) ==> (r matches Err(e) && e is LoginAttemptIdNotFound
                && final(self)@ == old(self)@),
    {
        match self.find_index(&email) {
            Some(i) => {
                proof {
                    lemma_codes_map_index(self.codes@, i as int);
                    lemma_codes_map_remove(self.codes@, i as int);
                }
                self.codes.remove(i);
                Ok(())
            },
            None => Err(TwoFACodeStoreError::LoginAttemptIdNotFound),
        }
    }
}

impl Default for HashmapTwoFACodeStore {
    /// An empty store.
    fn default() -> (r: Self)
        ensures
            r.wf(),
            r@ == Map::<Seq<char>, (Seq<char>, Seq<char>)>::empty(),
    {
        HashmapTwoFACodeStore { codes: Vec::new() }
    }
}

} // verus!

//! The in-memory revoked-token store: the reference backend of the
//! revocation store capability. A revoked token stays listed for the
//! token's own validity window (the backing store may evict it after
//! that, which is harmless: by then the token is expired anyway).
//! Revoking the same token twice is reported as a conflict rather
//! than accepted silently.

use vstd::prelude::*;

use crate::errors::BannedTokenStoreError;
use crate::secret::SecretString;

verus! {

/// The abstract content of a token sequence: the set of its
/// characters' views.
pub open spec fn tokens_set(s: Seq<String>) -> Set<Seq<char>>
    decreases s.len(),
{
    if s.len() == 0 {
        Set::empty()
    } else {
        tokens_set(s.drop_last()).insert(s.last()@)
    }
}

/// No token is listed twice.
pub open spec fn tokens_unique(s: Seq<String>) -> bool {
    forall|i: int, j: int| 0 <= i < j < s.len() ==> s[i]@ != s[j]@
}

/// A token no entry carries is not in the set.
proof fn lemma_tokens_set_no_elem(s: Seq<String>, t: Seq<char>)
    requires
        forall|i: int| 0 <= i < s.len() ==> (#[trigger] s[i])@ != t,
    ensures
        !tokens_set(s).contains(t),
    decreases s.len(),
{
    if s.len() > 0 {
        lemma_tokens_set_no_elem(s.drop_last(), t);
    }
}

/// A listed token is in the set.
proof fn lemma_tokens_set_index(s: Seq<String>, i: int)
    requires
        0 <= i < s.len(),
    ensures
        tokens_set(s).contains(s[i]@),
    decreases s.len(),
{
    if i < s.len() - 1 {
        lemma_tokens_set_index(s.drop_last(), i);
    }
}

/// The in-memory revoked-token store.
#[derive(Debug)]
pub struct HashsetBannedTokenStore {
    tokens: Vec<String>,
}

impl View for HashsetBannedTokenStore {
    type V = Set<Seq<char>>;

    closed spec fn view(&self) -> Set<Seq<char>> {
        tokens_set(self.tokens@)
    }
}

impl HashsetBannedTokenStore {
    /// The store's internal invariant: each token listed once.
    pub closed spec fn wf(&self) -> bool {
        tokens_unique(self.tokens@)
    }

    /// Is the token listed?
    fn find(&self, token: &String) -> (r: bool)
        ensures
            r == self@.contains(token@),
    {
        let ghost s = self.tokens@;
        let n = self.tokens.len();
        let mut i: usize = 0;
        while i < n
            invariant
                i <= n,
                n == s.len(),
                s == self.tokens@,
                forall|j: int| 0 <= j < i ==> (#[trigger] s[j])@ != token@,
            decreases n - i,
        {
            if self.tokens[i] == *token {
                proof {
                    lemma_tokens_set_index(s, i as int);
                }
                return true;
            }
            i = i + 1;
        }
        proof {
            lemma_tokens_set_no_elem(s, token@);
        }
        false
    }

    /// Records the token as revoked; recording it a second time is a
    /// conflict and leaves the store unchanged.
    pub fn add_token(&mut self, token: SecretString) -> (r: Result<(), BannedTokenStoreError>)
        requires
            old(self).wf(),
        ensures
            final(self).wf(),
            old(self)@.contains(token@) ==> (r matches Err(e) && e is UnexpectedError
                && final(self)@ == old(self)@),
            !old(self)@.contains(token@) ==> (r matches Ok(())
                && final(self)@ == old(self)@.insert(token@)),
    {
        if self.find(token.expose_secret()) {
            Err(BannedTokenStoreError::UnexpectedError(String::from_str("Token already exists")))
        } else {
            proof {
                if exists|i: int|
                    0 <= i < self.tokens@.len() && (#[trigger] self.tokens@[i])@ == token@ {
                    let i = choose|i: int|
                        0 <= i < self.tokens@.len() && (#[trigger] self.tokens@[i])@ == token@;
                    lemma_tokens_set_index(self.tokens@, i);
                }
            }
            let ghost pre = self.tokens@;
            self.tokens.push(token.expose_secret().clone());
            proof {
                assert(self.tokens@.drop_last() =~= pre);
            }
            Ok(())
        }
    }

    /// Is the token recorded as revoked? A pure membership check;
    /// always succeeds in this backend.
    pub fn contains_token(&mut self, token: SecretString) -> (r: Result<
        bool,
        BannedTokenStoreError,
    >)
        requires
            old(self).wf(),
        ensures
            final(self).wf(),
            final(self)@ == old(self)@,
            r matches Ok(b) && b == old(self)@.contains(token@),
    {
        Ok(self.find(token.expose_secret()))
    }
}

impl Default for HashsetBannedTokenStore {
    /// An empty store.
    fn default() -> (r: Self)
        ensures
            r.wf(),
            r@ == Set::<Seq<char>>::empty(),
    {
        HashsetBannedTokenStore { tokens: Vec::new() }
    }
}

/// The key under which a revoked token is filed in a keyed backend: a
/// fixed prefix in front of the token itself.
pub fn get_key(token: &str) -> (r: String)
    ensures
        r@ == "banned_token:"@ + token@,
{
    let mut s = String::from_str("banned_token:");
    s.append(token);
    s
}

} // verus!

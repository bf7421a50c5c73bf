//! The email value type. An address is accepted exactly when it has
//! the shape `local@domain.tld`: a nonempty local part over letters,
//! digits and `. _ % + -`, one `@`, a nonempty domain part over
//! letters, digits, `.` and `-`, then a final dot and a top-level
//! label of at least two letters.

use vstd::prelude::*;

use crate::secret::SecretString;
use crate::text::is_alpha_char;
use crate::text::is_digit_char;

verus! {

/// A character the local part of an address may hold: a letter, a
/// digit, or one of `. _ % + -`.
pub open spec fn is_local_char(c: char) -> bool {
    ||| is_alpha_char(c)
    ||| is_digit_char(c)
    ||| c as u32 == 46  // '.'
    ||| c as u32 == 95  // '_'
    ||| c as u32 == 37  // '%'
    ||| c as u32 == 43  // '+'
    ||| c as u32 == 45  // '-'
}

/// A character the domain part may hold before its final dot: a
/// letter, a digit, `.` or `-`.
pub open spec fn is_domain_char(c: char) -> bool {
    ||| is_alpha_char(c)
    ||| is_digit_char(c)
    ||| c as u32 == 46  // '.'
    ||| c as u32 == 45  // '-'
}

/// The address splits at position `a` (its `@`) and position `d` (the
/// dot before the top-level label): a nonempty local part, a nonempty
/// domain part, and at least two letters after the final dot.
pub open spec fn email_split_at(s: Seq<char>, a: int, d: int) -> bool {
    &&& 1 <= a
    &&& a + 1 < d
    &&& d + 2 < s.len()
    &&& s[a] as u32 == 64  // '@'
    &&& s[d] as u32 == 46  // '.'
    &&& forall|i: int| 0 <= i < a ==> is_local_char(#[trigger] s[i])
    &&& forall|i: int| a < i < d ==> is_domain_char(#[trigger] s[i])
    &&& forall|i: int| d < i < s.len() ==> is_alpha_char(#[trigger] s[i])
}

/// A well-formed address: some split as `local@domain.tld` exists.
/// Since no section may hold an `@`, the split's `@` is the only one,
/// and since the last section holds letters only, its dot is the last.
pub open spec fn is_valid_email(s: Seq<char>) -> bool {
    exists|a: int, d: int| email_split_at(s, a, d)
}

/// A validated email address. Values of this type always satisfy
/// [`is_valid_email`]; validity is checked at construction and never
/// again. Two addresses are equal when their characters are.
#[derive(Debug)]
pub struct Email {
    inner: SecretString,
}

#[verifier::type_invariant]
pub open spec fn email_wf(e: Email) -> bool {
    is_valid_email(e@)
}

impl View for Email {
    type V = Seq<char>;

    closed spec fn view(&self) -> Seq<char> {
        self.inner@
    }
}

impl Email {
    /// Accepts the candidate exactly when it is a well-formed address.
    pub fn parse(address: SecretString) -> (r: Result<Email, String>)
        ensures
            is_valid_email(address@) ==> (r matches Ok(e) && e@ == address@),
            !is_valid_email(address@) ==> (r matches Err(m) && m@
                == "Email doesn't fill the requirements"@),
    {
        if validate_email_requirements(address.expose_secret().as_str()) {
            Ok(Email { inner: address })
        } else {
            Err(String::from_str("Email doesn't fill the requirements"))
        }
    }

    /// The wrapped address, exposed deliberately.
    pub fn value(&self) -> (r: &str)
        ensures
            r@ == self@,
    {
        self.inner.expose_secret().as_str()
    }
}

impl Clone for Email {
    fn clone(&self) -> (r: Self)
        ensures
            r@ == self@,
    {
        proof {
            use_type_invariant(self);
        }
        Email { inner: self.inner.clone() }
    }
}

impl PartialEq for Email {
    fn eq(&self, other: &Self) -> (r: bool) {
        *self.inner.expose_secret() == *other.inner.expose_secret()
    }
}

impl vstd::std_specs::cmp::PartialEqSpecImpl for Email {
    open spec fn obeys_eq_spec() -> bool {
        true
    }

    open spec fn eq_spec(&self, other: &Self) -> bool {
        self@ == other@
    }
}

impl Eq for Email {

}

/// Is `c` a character the local part may hold?
fn local_char(c: char) -> (r: bool)
    ensures
        r == is_local_char(c),
{
    let u = c as u32;
    (97 <= u && u <= 122) || (65 <= u && u <= 90) || (48 <= u && u <= 57) || u == 46 || u == 95
        || u == 37 || u == 43 || u == 45
}

/// Is `c` a character the domain part may hold?
fn domain_char(c: char) -> (r: bool)
    ensures
        r == is_domain_char(c),
{
    let u = c as u32;
    (97 <= u && u <= 122) || (65 <= u && u <= 90) || (48 <= u && u <= 57) || u == 46 || u == 45
}

/// Is `c` an ASCII letter?
fn alpha_char(c: char) -> (r: bool)
    ensures
        r == is_alpha_char(c),
{
    let u = c as u32;
    (97 <= u && u <= 122) || (65 <= u && u <= 90)
}

/// In any witness split the `@` stands at the first `@` of the string
/// and the dot at its last dot.
proof fn lemma_split_positions_unique(s: Seq<char>, a: int, d: int, at: int, dot: int)
    requires
        email_split_at(s, a, d),
        0 <= at < s.len(),
        s[at] as u32 == 64,
        forall|j: int| 0 <= j < at ==> (#[trigger] s[j]) as u32 != 64,
        0 <= dot < s.len(),
        s[dot] as u32 == 46,
        forall|j: int| dot < j < s.len() ==> (#[trigger] s[j]) as u32 != 46,
    ensures
        a == at,
        d == dot,
{
    if at < a {
        assert(is_local_char(s[at]));
    }
    if at > a {
        if at < d {
            assert(is_domain_char(s[at]));
        } else if at == d {
        } else {
            assert(is_alpha_char(s[at]));
        }
    }
    if dot > d {
        assert(is_alpha_char(s[dot]));
    }
    if dot < d {
        assert(s[d] as u32 != 46);
    }
}

/// Decides [`is_valid_email`]: finds the first `@` and the last dot
/// and checks each section's characters against them.
fn validate_email_requirements(email: &str) -> (r: bool)
    ensures
        r == is_valid_email(email@),
{
    let n = email.unicode_len();
    let ghost s = email@;

    // Find the first '@'.
    let mut at: usize = 0;
    let mut found_at = false;
    let mut i: usize = 0;
    while i < n && !found_at
        invariant
            n == s.len(),
            i <= n,
            s == email@,
            !found_at ==> forall|j: int| 0 <= j < i ==> (#[trigger] s[j]) as u32 != 64,
            found_at ==> i == at + 1 && at < n && s[at as int] as u32 == 64 && forall|j: int|
                0 <= j < at ==> (#[trigger] s[j]) as u32 != 64,
        decreases n - i + (if found_at { 0int } else { 1int }),
    {
        let c = email.get_char(i);
        if c as u32 == 64 {
            found_at = true;
            at = i;
        }
        i = i + 1;
    }
    if !found_at {
        proof {
            assert(!is_valid_email(s)) by {
                if is_valid_email(s) {
                    let (a, d) = choose|a: int, d: int| email_split_at(s, a, d);
                    assert(s[a] as u32 == 64);
                }
            }
        }
        return false;
    }

    // Find the last '.'.
    let mut dot: usize = 0;
    let mut found_dot = false;
    let mut k: usize = n;
    while k > 0 && !found_dot
        invariant
            n == s.len(),
            k <= n,
            s == email@,
            !found_dot ==> forall|j: int| k <= j < n ==> (#[trigger] s[j]) as u32 != 46,
            found_dot ==> k == dot && dot < n && s[dot as int] as u32 == 46 && forall|j: int|
                dot < j < n ==> (#[trigger] s[j]) as u32 != 46,
        decreases k + (if found_dot { 0int } else { 1int }),
    {
        k = k - 1;
        let c = email.get_char(k);
        if c as u32 == 46 {
            found_dot = true;
            dot = k;
        }
    }

    let ghost at_i = at as int;
    let ghost dot_i = dot as int;

    if !found_dot {
        proof {
            assert(!is_valid_email(s)) by {
                if is_valid_email(s) {
                    let (a, d) = choose|a: int, d: int| email_split_at(s, a, d);
                    assert(s[d] as u32 == 46);
                }
            }
        }
        return false;
    }

    // The split positions are forced, so the shape checks against them
    // decide validity.
    if !(at >= 1 && dot > at && dot - at > 1 && n - dot > 2) {
        proof {
            assert(!is_valid_email(s)) by {
                if is_valid_email(s) {
                    let (a, d) = choose|a: int, d: int| email_split_at(s, a, d);
                    lemma_split_positions_unique(s, a, d, at_i, dot_i);
                }
            }
        }
        return false;
    }

    // Local part: positions 0 .. at.
    let mut i: usize = 0;
    while i < at
        invariant
            n == s.len(),
            s == email@,
            i <= at < n,
            at >= 1 && dot > at + 1 && dot + 2 < n,
            s[at_i] as u32 == 64,
            forall|j: int| 0 <= j < at_i ==> (#[trigger] s[j]) as u32 != 64,
            s[dot_i] as u32 == 46,
            forall|j: int| dot_i < j < n ==> (#[trigger] s[j]) as u32 != 46,
            at_i == at as int,
            dot_i == dot as int,
            forall|j: int| 0 <= j < i ==> is_local_char(#[trigger] s[j]),
        decreases at - i,
    {
        let c = email.get_char(i);
        if !local_char(c) {
            proof {
                assert(!is_valid_email(s)) by {
                    if is_valid_email(s) {
                        let (a, d) = choose|a: int, d: int| email_split_at(s, a, d);
                        lemma_split_positions_unique(s, a, d, at_i, dot_i);
                    }
                }
            }
            return false;
        }
        i = i + 1;
    }

    // Domain part: positions at + 1 .. dot.
    let mut i: usize = at + 1;
    while i < dot
        invariant
            n == s.len(),
            s == email@,
            at + 1 <= i <= dot,
            at >= 1 && dot > at + 1 && dot + 2 < n,
            s[at_i] as u32 == 64,
            forall|j: int| 0 <= j < at_i ==> (#[trigger] s[j]) as u32 != 64,
            s[dot_i] as u32 == 46,
            forall|j: int| dot_i < j < n ==> (#[trigger] s[j]) as u32 != 46,
            at_i == at as int,
            dot_i == dot as int,
            forall|j: int| 0 <= j < at_i ==> is_local_char(#[trigger] s[j]),
            forall|j: int| at_i < j < i ==> is_domain_char(#[trigger] s[j]),
        decreases dot - i,
    {
        let c = email.get_char(i);
        if !domain_char(c) {
            proof {
                assert(!is_valid_email(s)) by {
                    if is_valid_email(s) {
                        let (a, d) = choose|a: int, d: int| email_split_at(s, a, d);
                        lemma_split_positions_unique(s, a, d, at_i, dot_i);
                    }
                }
            }
            return false;
        }
        i = i + 1;
    }

    // Top-level label: positions dot + 1 .. n.
    let mut i: usize = dot + 1;
    while i < n
        invariant
            n == s.len(),
            s == email@,
            dot + 1 <= i <= n,
            at >= 1 && dot > at + 1 && dot + 2 < n,
            s[at_i] as u32 == 64,
            forall|j: int| 0 <= j < at_i ==> (#[trigger] s[j]) as u32 != 64,
            s[dot_i] as u32 == 46,
            forall|j: int| dot_i < j < n ==> (#[trigger] s[j]) as u32 != 46,
            at_i == at as int,
            dot_i == dot as int,
            forall|j: int| 0 <= j < at_i ==> is_local_char(#[trigger] s[j]),
            forall|j: int| at_i < j < dot_i ==> is_domain_char(#[trigger] s[j]),
            forall|j: int| dot_i < j < i ==> is_alpha_char(#[trigger] s[j]),
        decreases n - i,
    {
        let c = email.get_char(i);
        if !alpha_char(c) {
            proof {
                assert(!is_valid_email(s)) by {
                    if is_valid_email(s) {
                        let (a, d) = choose|a: int, d: int| email_split_at(s, a, d);
                        lemma_split_positions_unique(s, a, d, at_i, dot_i);
                    }
                }
            }
            return false;
        }
        i = i + 1;
    }

    proof {
        assert(email_split_at(s, at_i, dot_i));
    }
    true
}

} // verus!

//! An email address: lower-cased on construction, one separator between a
//! bounded local part and a bounded domain part that must contain a dot.
//!
//! Character classes and case folding here are ASCII, a deliberate
//! narrowing: "alphanumeric" means the ASCII letters and digits, so an
//! address with characters beyond ASCII is rejected by the character
//! checks, and only ASCII letters fold their case. Validation examines
//! the trimmed input; the stored value is the whole input, lower-cased.
use vstd::prelude::*;

use crate::text::is_alnum_char;
use crate::text::char_is_alnum;
use crate::text::lemma_lower_idempotent;
use crate::text::lemma_trimmed_lower_commutes;
use crate::text::to_lower_char;
use crate::text::seq_to_lower;
use crate::text::str_to_lower;
use crate::text::str_trim;
use crate::text::trimmed;

verus! {

/// A character allowed in the local part.
pub open spec fn is_local_char(c: char) -> bool {
    is_alnum_char(c) || c == '.' || c == '-' || c == '_' || c == '+'
}

/// A character allowed in the domain part.
pub open spec fn is_domain_char(c: char) -> bool {
    is_alnum_char(c) || c == '.' || c == '-'
}

/// The position of the first separator in `s`, or its length if there is
/// none.
pub open spec fn first_at(s: Seq<char>) -> int
    decreases s.len(),
{
    if s.len() == 0 {
        0
    } else if s[0] == '@' {
        0
    } else {
        1 + first_at(s.subrange(1, s.len() as int))
    }
}

/// The local part is non-empty, at most 64 characters, of allowed
/// characters; the domain part is non-empty, at most 253 characters, of
/// allowed characters, and contains a dot.
pub open spec fn email_parts_ok(local: Seq<char>, domain: Seq<char>) -> bool {
    &&& 1 <= local.len() <= 64
    &&& forall|i: int| 0 <= i < local.len() ==> is_local_char(#[trigger] local[i])
    &&& 1 <= domain.len() <= 253
    &&& forall|i: int| 0 <= i < domain.len() ==> is_domain_char(#[trigger] domain[i])
    &&& exists|i: int| 0 <= i < domain.len() && #[trigger] domain[i] == '.'
}

/// A well-formed address: a single separator splitting it into valid
/// local and domain parts.
pub open spec fn email_valid(s: Seq<char>) -> bool {
    let k = first_at(s);
    &&& k < s.len()
    &&& forall|j: int| k < j < s.len() ==> s[j] != '@'
    &&& email_parts_ok(s.subrange(0, k), s.subrange(k + 1, s.len() as int))
}

/// An email address, held in its lower-cased, trimmed form.
#[derive(Debug, PartialEq, Eq, Hash)]
pub struct Email(String);

impl View for Email {
    type V = Seq<char>;

    closed spec fn view(&self) -> Seq<char> {
        self.0@
    }
}

impl Clone for Email {
    fn clone(&self) -> (r: Self)
        ensures
            r == self,
            r@ == self@,
    {
        Email(self.0.clone())
    }
}

/// The first-separator position lies within the sequence; where it lies
/// strictly inside, it holds the separator, and nothing before it does.
proof fn lemma_first_at_bounds(s: Seq<char>)
    ensures
        0 <= first_at(s) <= s.len(),
        first_at(s) < s.len() ==> s[first_at(s)] == '@',
        forall|j: int| 0 <= j < first_at(s) ==> s[j] != '@',
    decreases s.len(),
{
    if s.len() > 0 && s[0] != '@' {
        let u = s.subrange(1, s.len() as int);
        lemma_first_at_bounds(u);
        assert forall|j: int| 0 <= j < first_at(s) implies s[j] != '@' by {
            if j > 0 {
                assert(u[j - 1] == s[j]);
                assert(u[j - 1] != '@');
            }
        };
    }
}

/// Wherever the first separator stands, it is characterized by what comes
/// before it.
proof fn lemma_first_at_is(s: Seq<char>, i: int)
    requires
        0 <= i <= s.len(),
        forall|j: int| 0 <= j < i ==> s[j] != '@',
        i == s.len() || s[i] == '@',
    ensures
        first_at(s) == i,
    decreases i,
{
    if i == 0 {
    } else {
        let t = s.subrange(1, s.len() as int);
        lemma_first_at_is(t, i - 1);
    }
}

impl Email {
    /// Validates the trimmed raw string and stores the whole input,
    /// lower-cased.
    pub fn new(email: String) -> (r: Result<Self, String>)
        ensures
            r is Ok <==> email_valid(trimmed(email@)),
            r matches Ok(e) ==> e@ == seq_to_lower(email@),
    {
        match Self::is_valid_email(email.as_str()) {
            Ok(_) => Ok(Email(str_to_lower(email.as_str()))),
            Err(e) => Err(e),
        }
    }

    /// The stored address.
    pub fn value(&self) -> (r: &str)
        ensures
            r@ == self@,
    {
        self.0.as_str()
    }

    /// Consumes the address, yielding the stored string.
    pub fn into_inner(self) -> (r: String)
        ensures
            r@ == self@,
    {
        self.0
    }

    /// Checks the trimmed string for a single separator, part lengths,
    /// allowed characters, and a dot in the domain, reporting the first
    /// failure in words.
    pub fn is_valid_email(email: &str) -> (r: Result<(), String>)
        ensures
            r is Ok <==> email_valid(trimmed(email@)),
    {
        let e = str_trim(email);
        let ghost t = trimmed(email@);
        let n = e.unicode_len();
        if n == 0 {
            proof {
                lemma_first_at_is(t, 0);
            }
            return Err(String::from_str("Email cannot be empty"));
        }
        // Find the first separator and refuse a second one.
        let mut k: usize = 0;
        while k < n && e.get_char(k) != '@'
            invariant
                t == trimmed(email@),
                n == t.len(),
                e@ == t,
                0 <= k <= n,
                forall|j: int| 0 <= j < k ==> t[j] != '@',
            decreases n - k,
        {
            k = k + 1;
        }
        proof {
            lemma_first_at_is(t, k as int);
        }
        if k == n {
            return Err(String::from_str("Email must contain exactly one @ symbol"));
        }
        let mut m: usize = k + 1;
        while m < n && e.get_char(m) != '@'
            invariant
                t == trimmed(email@),
                n == t.len(),
                e@ == t,
                k < m <= n,
                forall|j: int| k < j < m ==> t[j] != '@',
            decreases n - m,
        {
            m = m + 1;
        }
        if m < n {
            return Err(String::from_str("Email must contain exactly one @ symbol"));
        }
        let ghost local = t.subrange(0, k as int);
        let ghost domain = t.subrange(k + 1, n as int);
        // Local part bounds.
        if k == 0 {
            return Err(String::from_str("Email local part cannot be empty"));
        }
        if k > 64 {
            return Err(String::from_str("Email local part cannot exceed 64 characters"));
        }
        // Domain part bounds.
        if k + 1 == n {
            return Err(String::from_str("Email domain cannot be empty"));
        }
        if n - (k + 1) > 253 {
            return Err(String::from_str("Email domain cannot exceed 253 characters"));
        }
        // The domain must contain a dot.
        let mut has_dot = false;
        let mut i: usize = k + 1;
        while i < n
            invariant
                t == trimmed(email@),
                n == t.len(),
                e@ == t,
                k + 1 <= i <= n,
                has_dot <==> exists|j: int| k + 1 <= j < i && #[trigger] t[j] == '.',
            decreases n - i,
        {
            if e.get_char(i) == '.' {
                has_dot = true;
            }
            i = i + 1;
        }
        if !has_dot {
            proof {
                assert(forall|j: int|
                    0 <= j < domain.len() ==> #[trigger] domain[j] == t[k + 1 + j]);
            }
            return Err(String::from_str("Email domain must contain at least one dot"));
        }
        // Allowed characters, local part.
        let mut i: usize = 0;
        while i < k
            invariant
                t == trimmed(email@),
                n == t.len(),
                e@ == t,
                k < n,
                first_at(t) == k as int,
                0 <= i <= k,
                forall|j: int| 0 <= j < i ==> is_local_char(#[trigger] t[j]),
            decreases k - i,
        {
            let c = e.get_char(i);
            if !(char_is_alnum(c) || c == '.' || c == '-' || c == '_' || c == '+') {
                proof {
                    assert(t.subrange(0, k as int)[i as int] == t[i as int]);
                }
                return Err(String::from_str("Email local part contains invalid characters"));
            }
            i = i + 1;
        }
        // Allowed characters, domain part.
        let mut i: usize = k + 1;
        while i < n
            invariant
                t == trimmed(email@),
                n == t.len(),
                e@ == t,
                k < n,
                first_at(t) == k as int,
                k + 1 <= i <= n,
                forall|j: int| k + 1 <= j < i ==> is_domain_char(#[trigger] t[j]),
            decreases n - i,
        {
            let c = e.get_char(i);
            if !(char_is_alnum(c) || c == '.' || c == '-') {
                proof {
                    assert(t.subrange(k + 1, n as int)[i - (k + 1)] == t[i as int]);
                }
                return Err(String::from_str("Email domain contains invalid characters"));
            }
            i = i + 1;
        }
        proof {
            assert(forall|j: int| 0 <= j < local.len() ==> #[trigger] local[j] == t[j]);
            assert(forall|j: int| 0 <= j < domain.len() ==> #[trigger] domain[j] == t[k + 1 + j]);
            let d = choose|j: int| k + 1 <= j < n && #[trigger] t[j] == '.';
            assert(domain[d - (k + 1)] == '.');
        }
        Ok(())
    }
}

/// What a valid address lower-cases to is itself a valid address.
pub proof fn lemma_email_lower_preserves(s: Seq<char>)
    requires
        email_valid(s),
    ensures
        email_valid(seq_to_lower(s)),
{
    let k = first_at(s);
    lemma_first_at_bounds(s);
    let t = seq_to_lower(s);
    let local = s.subrange(0, k);
    let domain = s.subrange(k + 1, s.len() as int);
    assert(forall|j: int| 0 <= j < local.len() ==> #[trigger] local[j] == s[j]);
    assert(forall|j: int| 0 <= j < domain.len() ==> #[trigger] domain[j] == s[k + 1 + j]);
    // Lower-casing maps no character onto the separator, and keeps the
    // allowed character classes.
    assert(forall|c: char| to_lower_char(c) == '@' ==> c == '@');
    assert(forall|c: char| is_local_char(c) ==> is_local_char(#[trigger] to_lower_char(c)));
    assert(forall|c: char| is_domain_char(c) ==> is_domain_char(#[trigger] to_lower_char(c)));
    assert(forall|c: char| to_lower_char(c) == '.' ==> c == '.');
    assert(forall|c: char| c == '.' ==> to_lower_char(c) == '.');
    // The separator stands where it stood.
    assert forall|j: int| 0 <= j < k implies s[j] != '@' by {
        assert(local[j] == s[j]);
        assert(is_local_char(local[j]));
    };
    assert forall|j: int| 0 <= j < k implies t[j] != '@' by {
        assert(t[j] == to_lower_char(s[j]));
    };
    assert(t[k] == to_lower_char(s[k]));
    assert(t[k] == '@');
    lemma_first_at_is(t, k);
    assert(first_at(t) == k);
    // The lower-cased parts are the parts, lower-cased pointwise.
    let tlocal = t.subrange(0, k);
    let tdomain = t.subrange(k + 1, t.len() as int);
    assert(forall|j: int| 0 <= j < tlocal.len() ==> #[trigger] tlocal[j] == to_lower_char(s[j]));
    assert(forall|j: int|
        0 <= j < tdomain.len() ==> #[trigger] tdomain[j] == to_lower_char(s[k + 1 + j]));
    assert forall|j: int| 0 <= j < tlocal.len() implies is_local_char(#[trigger] tlocal[j]) by {
        assert(is_local_char(local[j]));
        assert(tlocal[j] == to_lower_char(local[j]));
    };
    assert forall|j: int| 0 <= j < tdomain.len() implies is_domain_char(#[trigger] tdomain[j]) by {
        assert(is_domain_char(domain[j]));
        assert(tdomain[j] == to_lower_char(domain[j]));
    };
    let d = choose|d: int| 0 <= d < domain.len() && #[trigger] domain[d] == '.';
    assert(tdomain[d] == '.');
    assert(email_valid(t));
}

/// A stored address round-trips: the stored value is the input
/// lower-cased, its trimmed form is still a valid address, and lowering
/// it again changes nothing — so parsing a stored value accepts it and
/// stores it unchanged.
pub proof fn lemma_email_round_trip(s: Seq<char>)
    requires
        email_valid(trimmed(s)),
    ensures
        email_valid(trimmed(seq_to_lower(s))),
        seq_to_lower(seq_to_lower(s)) == seq_to_lower(s),
{
    lemma_lower_idempotent(s);
    lemma_trimmed_lower_commutes(s);
    lemma_email_lower_preserves(trimmed(s));
}

} // verus!

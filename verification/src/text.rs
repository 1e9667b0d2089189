//! ASCII text helpers shared by the value objects: character classes,
//! case mapping, trimming, and substring search, each with an exact
//! specification over sequences of characters.
use vstd::prelude::*;

verus! {

/// ASCII whitespace, the characters stripped from the ends of raw input.
pub open spec fn is_ascii_space(c: char) -> bool {
    c == ' ' || c == '\t' || c == '\n' || c == '\r'
}

pub open spec fn is_digit_char(c: char) -> bool {
    '0' <= c && c <= '9'
}

pub open spec fn is_upper_char(c: char) -> bool {
    'A' <= c && c <= 'Z'
}

pub open spec fn is_lower_char(c: char) -> bool {
    'a' <= c && c <= 'z'
}

pub open spec fn is_alpha_char(c: char) -> bool {
    is_upper_char(c) || is_lower_char(c)
}

pub open spec fn is_alnum_char(c: char) -> bool {
    is_digit_char(c) || is_alpha_char(c)
}

/// Maps an ASCII lower-case letter to its upper-case form; any other
/// character is unchanged.
pub open spec fn to_upper_char(c: char) -> char {
    if is_lower_char(c) {
        ((c as u8) - 32) as char
    } else {
        c
    }
}

/// Maps an ASCII upper-case letter to its lower-case form; any other
/// character is unchanged.
pub open spec fn to_lower_char(c: char) -> char {
    if is_upper_char(c) {
        ((c as u8) + 32) as char
    } else {
        c
    }
}

pub open spec fn seq_to_upper(s: Seq<char>) -> Seq<char> {
    s.map_values(|c: char| to_upper_char(c))
}

pub open spec fn seq_to_lower(s: Seq<char>) -> Seq<char> {
    s.map_values(|c: char| to_lower_char(c))
}

/// The sequence with its leading ASCII whitespace removed.
pub open spec fn trim_front(s: Seq<char>) -> Seq<char>
    decreases s.len(),
{
    if s.len() > 0 && is_ascii_space(s[0]) {
        trim_front(s.subrange(1, s.len() as int))
    } else {
        s
    }
}

/// The sequence with its trailing ASCII whitespace removed.
pub open spec fn trim_back(s: Seq<char>) -> Seq<char>
    decreases s.len(),
{
    if s.len() > 0 && is_ascii_space(s[s.len() - 1]) {
        trim_back(s.subrange(0, s.len() - 1))
    } else {
        s
    }
}

/// The sequence with ASCII whitespace removed from both ends.
pub open spec fn trimmed(s: Seq<char>) -> Seq<char> {
    trim_back(trim_front(s))
}

/// `needle` occurs as a contiguous run inside `hay`.
pub open spec fn seq_contains_sub(hay: Seq<char>, needle: Seq<char>) -> bool {
    exists|i: int|
        0 <= i <= hay.len() - needle.len() && #[trigger] hay.subrange(i, i + needle.len() as int)
            == needle
}

pub exec fn char_to_upper(c: char) -> (r: char)
    ensures
        r == to_upper_char(c),
{
    if 'a' <= c && c <= 'z' {
        ((c as u8) - 32) as char
    } else {
        c
    }
}

pub exec fn char_to_lower(c: char) -> (r: char)
    ensures
        r == to_lower_char(c),
{
    if 'A' <= c && c <= 'Z' {
        ((c as u8) + 32) as char
    } else {
        c
    }
}

pub exec fn char_is_space(c: char) -> (r: bool)
    ensures
        r == is_ascii_space(c),
{
    c == ' ' || c == '\t' || c == '\n' || c == '\r'
}

pub exec fn char_is_digit(c: char) -> (r: bool)
    ensures
        r == is_digit_char(c),
{
    '0' <= c && c <= '9'
}

pub exec fn char_is_alpha(c: char) -> (r: bool)
    ensures
        r == is_alpha_char(c),
{
    ('A' <= c && c <= 'Z') || ('a' <= c && c <= 'z')
}

pub exec fn char_is_alnum(c: char) -> (r: bool)
    ensures
        r == is_alnum_char(c),
{
    char_is_digit(c) || char_is_alpha(c)
}

/// Relies on String::push: appends the given character to the end of
/// this string.
pub assume_specification[ String::push ](s: &mut String, c: char)
    ensures
        final(s)@ == old(s)@ + seq![c],
;

pub exec fn str_to_upper(s: &str) -> (r: String)
    ensures
        r@ == seq_to_upper(s@),
{
    let n = s.unicode_len();
    let mut r = String::new();
    let mut i: usize = 0;
    while i < n
        invariant
            n == s@.len(),
            0 <= i <= n,
            r@ == seq_to_upper(s@.subrange(0, i as int)),
        decreases n - i,
    {
        let c = s.get_char(i);
        r.push(char_to_upper(c));
        proof {
            assert(r@ =~= seq_to_upper(s@.subrange(0, i + 1)));
        }
        i = i + 1;
    }
    proof {
        assert(s@.subrange(0, n as int) =~= s@);
    }
    r
}

pub exec fn str_to_lower(s: &str) -> (r: String)
    ensures
        r@ == seq_to_lower(s@),
{
    let n = s.unicode_len();
    let mut r = String::new();
    let mut i: usize = 0;
    while i < n
        invariant
            n == s@.len(),
            0 <= i <= n,
            r@ == seq_to_lower(s@.subrange(0, i as int)),
        decreases n - i,
    {
        let c = s.get_char(i);
        r.push(char_to_lower(c));
        proof {
            assert(r@ =~= seq_to_lower(s@.subrange(0, i + 1)));
        }
        i = i + 1;
    }
    proof {
        assert(s@.subrange(0, n as int) =~= s@);
    }
    r
}

proof fn lemma_trim_front_is_subrange(s: Seq<char>, i: int)
    requires
        0 <= i <= s.len(),
        forall|j: int| 0 <= j < i ==> is_ascii_space(s[j]),
        i == s.len() || !is_ascii_space(s[i]),
    ensures
        trim_front(s) == s.subrange(i, s.len() as int),
    decreases i,
{
    if i == 0 {
        assert(s.subrange(0, s.len() as int) =~= s);
    } else {
        let t = s.subrange(1, s.len() as int);
        lemma_trim_front_is_subrange(t, i - 1);
        assert(t.subrange(i - 1, t.len() as int) =~= s.subrange(i, s.len() as int));
    }
}

proof fn lemma_trim_back_is_subrange(s: Seq<char>, i: int)
    requires
        0 <= i <= s.len(),
        forall|j: int| i <= j < s.len() ==> is_ascii_space(s[j]),
        i == 0 || !is_ascii_space(s[i - 1]),
    ensures
        trim_back(s) == s.subrange(0, i),
    decreases s.len() - i,
{
    if i == s.len() {
        if s.len() == 0 || !is_ascii_space(s[s.len() - 1]) {
            assert(s.subrange(0, s.len() as int) =~= s);
        } else {
            let t = s.subrange(0, s.len() - 1);
            lemma_trim_back_is_subrange(t, t.len() as int);
            assert(t.subrange(0, t.len() as int) =~= t);
            assert(s.subrange(0, i) =~= t);
        }
    } else {
        let t = s.subrange(0, s.len() - 1);
        lemma_trim_back_is_subrange(t, i);
        assert(t.subrange(0, i) =~= s.subrange(0, i));
    }
}

/// Strips ASCII whitespace from both ends.
pub exec fn str_trim<'a>(s: &'a str) -> (r: &'a str)
    ensures
        r@ == trimmed(s@),
{
    let n = s.unicode_len();
    let mut a: usize = 0;
    while a < n && char_is_space(s.get_char(a))
        invariant
            n == s@.len(),
            0 <= a <= n,
            forall|j: int| 0 <= j < a ==> is_ascii_space(s@[j]),
        decreases n - a,
    {
        a = a + 1;
    }
    let mut b: usize = n;
    while b > a && char_is_space(s.get_char(b - 1))
        invariant
            n == s@.len(),
            a <= b <= n,
            forall|j: int| b <= j < n ==> is_ascii_space(s@[j]),
        decreases b,
    {
        b = b - 1;
    }
    proof {
        lemma_trim_front_is_subrange(s@, a as int);
        let t = s@.subrange(a as int, n as int);
        lemma_trim_back_is_subrange(t, b - a);
        assert(t.subrange(0, b - a) =~= s@.subrange(a as int, b as int));
    }
    s.substring_char(a, b)
}

/// A sequence whose ends are not whitespace trims to itself.
pub proof fn lemma_trimmed_noop(s: Seq<char>)
    requires
        s.len() == 0 || (!is_ascii_space(s[0]) && !is_ascii_space(s[s.len() - 1])),
    ensures
        trimmed(s) == s,
{
    assert(trim_front(s) == s);
    assert(trim_back(s) == s);
}

/// Upper-casing is idempotent.
pub proof fn lemma_upper_idempotent(s: Seq<char>)
    ensures
        seq_to_upper(seq_to_upper(s)) == seq_to_upper(s),
{
    assert(forall|c: char| to_upper_char(#[trigger] to_upper_char(c)) == to_upper_char(c));
    assert(seq_to_upper(seq_to_upper(s)) =~= seq_to_upper(s));
}

/// What trimming from the front keeps is a suffix that starts with
/// something other than whitespace.
proof fn lemma_trim_front_shape(s: Seq<char>)
    ensures
        trim_front(s).len() > 0 ==> !is_ascii_space(trim_front(s)[0]),
    decreases s.len(),
{
    if s.len() > 0 && is_ascii_space(s[0]) {
        lemma_trim_front_shape(s.subrange(1, s.len() as int));
    }
}

/// What trimming from the back keeps is a prefix that ends with something
/// other than whitespace.
proof fn lemma_trim_back_shape(s: Seq<char>)
    ensures
        trim_back(s).len() <= s.len(),
        forall|j: int| 0 <= j < trim_back(s).len() ==> #[trigger] trim_back(s)[j] == s[j],
        trim_back(s).len() > 0 ==> !is_ascii_space(trim_back(s).last()),
    decreases s.len(),
{
    if s.len() > 0 && is_ascii_space(s[s.len() - 1]) {
        let u = s.subrange(0, s.len() - 1);
        lemma_trim_back_shape(u);
        assert(forall|j: int| 0 <= j < trim_back(u).len() ==> u[j] == s[j]);
    }
}

/// A trimmed sequence neither starts nor ends with whitespace.
pub proof fn lemma_trimmed_ends(s: Seq<char>)
    ensures
        trimmed(s).len() > 0 ==> !is_ascii_space(trimmed(s)[0]) && !is_ascii_space(
            trimmed(s).last(),
        ),
{
    lemma_trim_front_shape(s);
    lemma_trim_back_shape(trim_front(s));
}

/// Lower-casing is idempotent.
pub proof fn lemma_lower_idempotent(s: Seq<char>)
    ensures
        seq_to_lower(seq_to_lower(s)) == seq_to_lower(s),
{
    assert(forall|c: char| to_lower_char(#[trigger] to_lower_char(c)) == to_lower_char(c));
    assert(seq_to_lower(seq_to_lower(s)) =~= seq_to_lower(s));
}

/// Lower-casing maps whitespace to whitespace and nothing else to
/// whitespace, so it commutes with trimming the front.
proof fn lemma_trim_front_lower_commutes(s: Seq<char>)
    ensures
        trim_front(seq_to_lower(s)) == seq_to_lower(trim_front(s)),
    decreases s.len(),
{
    let t = seq_to_lower(s);
    assert(forall|c: char| is_ascii_space(#[trigger] to_lower_char(c)) == is_ascii_space(c));
    if s.len() == 0 {
        assert(t =~= seq_to_lower(trim_front(s)));
    } else if is_ascii_space(s[0]) {
        assert(t[0] == to_lower_char(s[0]));
        let s1 = s.subrange(1, s.len() as int);
        lemma_trim_front_lower_commutes(s1);
        assert(t.subrange(1, t.len() as int) =~= seq_to_lower(s1));
    } else {
        assert(t[0] == to_lower_char(s[0]));
        assert(!is_ascii_space(t[0]));
    }
}

/// The same, trimming the back.
proof fn lemma_trim_back_lower_commutes(s: Seq<char>)
    ensures
        trim_back(seq_to_lower(s)) == seq_to_lower(trim_back(s)),
    decreases s.len(),
{
    let t = seq_to_lower(s);
    assert(forall|c: char| is_ascii_space(#[trigger] to_lower_char(c)) == is_ascii_space(c));
    if s.len() == 0 {
        assert(t =~= seq_to_lower(trim_back(s)));
    } else if is_ascii_space(s[s.len() - 1]) {
        assert(t[t.len() - 1] == to_lower_char(s[s.len() - 1]));
        let s1 = s.subrange(0, s.len() - 1);
        lemma_trim_back_lower_commutes(s1);
        assert(t.subrange(0, t.len() - 1) =~= seq_to_lower(s1));
    } else {
        assert(t[t.len() - 1] == to_lower_char(s[s.len() - 1]));
        assert(!is_ascii_space(t[t.len() - 1]));
    }
}

/// Lower-casing commutes with trimming.
pub proof fn lemma_trimmed_lower_commutes(s: Seq<char>)
    ensures
        trimmed(seq_to_lower(s)) == seq_to_lower(trimmed(s)),
{
    lemma_trim_front_lower_commutes(s);
    lemma_trim_back_lower_commutes(trim_front(s));
}

/// Character-wise string equality.
pub exec fn str_eq(a: &str, b: &str) -> (r: bool)
    ensures
        r == (a@ == b@),
{
    let x = a.to_owned();
    let y = b.to_owned();
    x == y
}

/// Whether `needle` occurs in `hay` starting at position `i`.
exec fn matches_at(hay: &str, needle: &str, i: usize) -> (r: bool)
    requires
        i + needle@.len() <= hay@.len(),
        hay@.len() <= usize::MAX,
    ensures
        r == (hay@.subrange(i as int, i + needle@.len()) == needle@),
{
    let nn = needle.unicode_len();
    let mut j: usize = 0;
    while j < nn
        invariant
            nn == needle@.len(),
            i + nn <= hay@.len(),
            hay@.len() <= usize::MAX,
            0 <= j <= nn,
            forall|t: int| 0 <= t < j ==> hay@[i + t] == needle@[t],
        decreases nn - j,
    {
        if hay.get_char(i + j) != needle.get_char(j) {
            proof {
                assert(hay@.subrange(i as int, i + nn as int)[j as int] != needle@[j as int]);
            }
            return false;
        }
        j = j + 1;
    }
    proof {
        assert(hay@.subrange(i as int, i + nn as int) =~= needle@);
    }
    true
}

/// Case-sensitive substring search.
pub exec fn str_contains(hay: &str, needle: &str) -> (r: bool)
    ensures
        r == seq_contains_sub(hay@, needle@),
{
    let hn = hay.unicode_len();
    let nn = needle.unicode_len();
    if nn > hn {
        return false;
    }
    if nn == 0 {
        proof {
            assert(hay@.subrange(0, 0 + needle@.len() as int) =~= needle@);
        }
        return true;
    }
    let mut i: usize = 0;
    while i <= hn - nn
        invariant
            hn == hay@.len(),
            nn == needle@.len(),
            0 < nn <= hn,
            0 <= i <= hn - nn + 1,
            forall|k: int|
                0 <= k < i ==> #[trigger] hay@.subrange(k, k + nn as int) != needle@,
        decreases hn - i,
    {
        if matches_at(hay, needle, i) {
            return true;
        }
        i = i + 1;
    }
    proof {
        assert(forall|k: int|
            0 <= k <= hn - nn ==> #[trigger] hay@.subrange(k, k + nn as int) != needle@);
    }
    false
}

} // verus!

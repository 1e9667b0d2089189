//! A vehicle license plate: normalized to upper case, and checked against
//! the two accepted shapes — three digits, three letters, two digits, or
//! one letter, three digits, three letters.
use vstd::prelude::*;

use crate::text::is_alpha_char;
use crate::text::is_ascii_space;
use crate::text::is_digit_char;
use crate::text::lemma_trimmed_ends;
use crate::text::lemma_trimmed_noop;
use crate::text::lemma_upper_idempotent;
use crate::text::to_upper_char;
use crate::text::char_is_alpha;
use crate::text::char_is_digit;
use crate::text::seq_to_upper;
use crate::text::str_to_upper;
use crate::text::str_trim;
use crate::text::trimmed;

verus! {

/// The eight-character shape: three digits, three letters, two digits.
pub open spec fn plate_standard(s: Seq<char>) -> bool {
    &&& s.len() == 8
    &&& forall|i: int| 0 <= i < 3 ==> is_digit_char(#[trigger] s[i])
    &&& forall|i: int| 3 <= i < 6 ==> is_alpha_char(#[trigger] s[i])
    &&& forall|i: int| 6 <= i < 8 ==> is_digit_char(#[trigger] s[i])
}

/// The seven-character shape: one letter, three digits, three letters.
pub open spec fn plate_alternative(s: Seq<char>) -> bool {
    &&& s.len() == 7
    &&& is_alpha_char(s[0])
    &&& forall|i: int| 1 <= i < 4 ==> is_digit_char(#[trigger] s[i])
    &&& forall|i: int| 4 <= i < 7 ==> is_alpha_char(#[trigger] s[i])
}

/// A string passes plate validation: non-empty, at most eight characters,
/// and of one of the two accepted shapes.
pub open spec fn plate_valid(s: Seq<char>) -> bool {
    &&& s.len() != 0
    &&& s.len() <= 8
    &&& (plate_standard(s) || plate_alternative(s))
}

/// Errors the lenient constructor could report; none is ever produced,
/// since construction only normalizes.
#[derive(Debug)]
pub enum LicensePlateError {
    InvalidFormat(String),
}

#[derive(Debug)]
pub enum LicensePlateValidationError {
    InvalidFormat(String),
    Empty,
    TooLong,
}

/// A license plate, held in its upper-cased, trimmed form. Construction
/// never rejects: shape checking is a separate step, applied where the
/// pipeline demands it.
#[derive(Debug, PartialEq, Eq, Hash)]
pub struct LicensePlate {
    value: String,
}

impl View for LicensePlate {
    type V = Seq<char>;

    closed spec fn view(&self) -> Seq<char> {
        self.value@
    }
}

impl Clone for LicensePlate {
    fn clone(&self) -> (r: Self)
        ensures
            r == self,
            r@ == self@,
    {
        LicensePlate { value: self.value.clone() }
    }
}

impl LicensePlate {
    /// Normalizes the raw string — whitespace stripped, letters
    /// upper-cased — without checking its shape.
    pub fn new(value: &str) -> (r: Result<Self, LicensePlateError>)
        ensures
            r matches Ok(p) && p@ == seq_to_upper(trimmed(value@)),
    {
        Ok(LicensePlate { value: str_to_upper(str_trim(value)) })
    }

    /// Checks a string against the accepted plate shapes, reporting
    /// emptiness, excess length, or a shape mismatch.
    pub fn validate(value: &str) -> (r: Result<(), LicensePlateValidationError>)
        ensures
            r is Ok <==> plate_valid(value@),
            value@.len() == 0 ==> r matches Err(LicensePlateValidationError::Empty),
            value@.len() > 8 ==> r matches Err(LicensePlateValidationError::TooLong),
            0 < value@.len() <= 8 && !plate_valid(value@) ==> (r matches Err(
                LicensePlateValidationError::InvalidFormat(t),
            ) && t@ == value@),
    {
        let n = value.unicode_len();
        if n == 0 {
            return Err(LicensePlateValidationError::Empty);
        }
        if n > 8 {
            return Err(LicensePlateValidationError::TooLong);
        }
        if Self::is_standard_format(value) || Self::is_alternative_format(value) {
            Ok(())
        } else {
            Err(LicensePlateValidationError::InvalidFormat(value.to_owned()))
        }
    }

    /// Whether the string has the three digits, three letters, two digits
    /// shape.
    pub fn is_standard_format(value: &str) -> (r: bool)
        ensures
            r == plate_standard(value@),
    {
        let n = value.unicode_len();
        if n != 8 {
            return false;
        }
        let mut i: usize = 0;
        while i < 3
            invariant
                value@.len() == 8,
                0 <= i <= 3,
                forall|j: int| 0 <= j < i ==> is_digit_char(#[trigger] value@[j]),
            decreases 3 - i,
        {
            if !char_is_digit(value.get_char(i)) {
                return false;
            }
            i = i + 1;
        }
        while i < 6
            invariant
                value@.len() == 8,
                3 <= i <= 6,
                forall|j: int| 0 <= j < 3 ==> is_digit_char(#[trigger] value@[j]),
                forall|j: int| 3 <= j < i ==> is_alpha_char(#[trigger] value@[j]),
            decreases 6 - i,
        {
            if !char_is_alpha(value.get_char(i)) {
                return false;
            }
            i = i + 1;
        }
        while i < 8
            invariant
                value@.len() == 8,
                6 <= i <= 8,
                forall|j: int| 0 <= j < 3 ==> is_digit_char(#[trigger] value@[j]),
                forall|j: int| 3 <= j < 6 ==> is_alpha_char(#[trigger] value@[j]),
                forall|j: int| 6 <= j < i ==> is_digit_char(#[trigger] value@[j]),
            decreases 8 - i,
        {
            if !char_is_digit(value.get_char(i)) {
                return false;
            }
            i = i + 1;
        }
        true
    }

    /// Whether the string has the one letter, three digits, three letters
    /// shape.
    pub fn is_alternative_format(value: &str) -> (r: bool)
        ensures
            r == plate_alternative(value@),
    {
        let n = value.unicode_len();
        if n != 7 {
            return false;
        }
        if !char_is_alpha(value.get_char(0)) {
            return false;
        }
        let mut i: usize = 1;
        while i < 4
            invariant
                value@.len() == 7,
                is_alpha_char(value@[0]),
                1 <= i <= 4,
                forall|j: int| 1 <= j < i ==> is_digit_char(#[trigger] value@[j]),
            decreases 4 - i,
        {
            if !char_is_digit(value.get_char(i)) {
                return false;
            }
            i = i + 1;
        }
        while i < 7
            invariant
                value@.len() == 7,
                is_alpha_char(value@[0]),
                4 <= i <= 7,
                forall|j: int| 1 <= j < 4 ==> is_digit_char(#[trigger] value@[j]),
                forall|j: int| 4 <= j < i ==> is_alpha_char(#[trigger] value@[j]),
            decreases 7 - i,
        {
            if !char_is_alpha(value.get_char(i)) {
                return false;
            }
            i = i + 1;
        }
        true
    }

    /// The stored normalized string.
    pub fn value(&self) -> (r: &str)
        ensures
            r@ == self@,
    {
        self.value.as_str()
    }

    /// Consumes the plate, yielding the normalized string.
    pub fn into_string(self) -> (r: String)
        ensures
            r@ == self@,
    {
        self.value
    }
}

/// A stored plate round-trips: the normalized form normalizes to itself,
/// so constructing a plate from a stored value stores it unchanged.
pub proof fn lemma_plate_round_trip(s: Seq<char>)
    ensures
        seq_to_upper(trimmed(seq_to_upper(trimmed(s)))) == seq_to_upper(trimmed(s)),
{
    let v = seq_to_upper(trimmed(s));
    lemma_trimmed_ends(s);
    assert(forall|c: char| is_ascii_space(#[trigger] to_upper_char(c)) ==> is_ascii_space(c));
    if v.len() > 0 {
        assert(v[0] == to_upper_char(trimmed(s)[0]));
        assert(v[v.len() - 1] == to_upper_char(trimmed(s).last()));
    }
    lemma_trimmed_noop(v);
    lemma_upper_idempotent(trimmed(s));
}

} // verus!

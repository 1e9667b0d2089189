//! A vehicle identification number: a 17-character identifier whose 9th
//! character is a check digit computed by a weighted sum modulo 11 over the
//! other 16 characters.
use vstd::prelude::*;

use crate::text::is_alnum_char;
use crate::text::is_digit_char;
use crate::text::is_lower_char;
use crate::text::is_ascii_space;
use crate::text::char_is_digit;
use crate::text::seq_to_upper;
use crate::text::str_to_upper;
use crate::text::str_trim;
use crate::text::to_upper_char;
use crate::text::trimmed;

verus! {

/// A character allowed in a vehicle identification number: alphanumeric,
/// except the easily confused letters I, O and Q.
pub open spec fn is_vin_char(c: char) -> bool {
    is_alnum_char(c) && c != 'I' && c != 'O' && c != 'Q'
}

/// The numeric value a character contributes to the check-digit sum.
/// Digits map to themselves; letters map through their transliteration
/// group; anything else counts as zero.
pub open spec fn vin_char_value(c: char) -> int {
    if is_digit_char(c) {
        (c as u8 - 48) as int
    } else if c == 'A' || c == 'J' {
        1
    } else if c == 'B' || c == 'K' || c == 'S' {
        2
    } else if c == 'C' || c == 'L' || c == 'T' {
        3
    } else if c == 'D' || c == 'M' || c == 'U' {
        4
    } else if c == 'E' || c == 'N' || c == 'V' {
        5
    } else if c == 'F' || c == 'W' {
        6
    } else if c == 'G' || c == 'P' || c == 'X' {
        7
    } else if c == 'H' || c == 'Y' {
        8
    } else if c == 'R' || c == 'Z' {
        9
    } else {
        0
    }
}

/// The weight of each position in the check-digit sum; the check-digit
/// position itself carries no weight.
pub open spec fn vin_weight(i: int) -> int {
    if i == 0 {
        8
    } else if i == 1 {
        7
    } else if i == 2 {
        6
    } else if i == 3 {
        5
    } else if i == 4 {
        4
    } else if i == 5 {
        3
    } else if i == 6 {
        2
    } else if i == 7 {
        10
    } else if i == 8 {
        0
    } else if i == 9 {
        9
    } else if i == 10 {
        8
    } else if i == 11 {
        7
    } else if i == 12 {
        6
    } else if i == 13 {
        5
    } else if i == 14 {
        4
    } else if i == 15 {
        3
    } else if i == 16 {
        2
    } else {
        0
    }
}

/// The weighted sum of the first `n` positions, skipping the check-digit
/// position.
pub open spec fn vin_sum(s: Seq<char>, n: int) -> int
    decreases n,
{
    if n <= 0 {
        0
    } else if n - 1 == 8 {
        vin_sum(s, n - 1)
    } else {
        vin_sum(s, n - 1) + vin_char_value(s[n - 1]) * vin_weight(n - 1)
    }
}

/// The check character demanded by a remainder: ten maps to 'X', anything
/// else to its decimal digit.
pub open spec fn vin_remainder_char(r: int) -> char {
    if r == 10 {
        'X'
    } else {
        ((48 + r) as u8) as char
    }
}

/// The check character the 9th position of `s` must hold.
pub open spec fn vin_check_char(s: Seq<char>) -> char {
    vin_remainder_char(vin_sum(s, 17) % 11)
}

/// A well-formed vehicle identification number: exactly 17 allowed
/// characters whose 9th is the computed check character.
pub open spec fn vin_valid(s: Seq<char>) -> bool {
    &&& s.len() == 17
    &&& forall|i: int| 0 <= i < 17 ==> is_vin_char(#[trigger] s[i])
    &&& s[8] == vin_check_char(s)
}

/// The characters of `s` that are not allowed in a vehicle identification
/// number, in order.
pub open spec fn vin_bad_chars(s: Seq<char>) -> Seq<char>
    decreases s.len(),
{
    if s.len() == 0 {
        Seq::empty()
    } else if is_vin_char(s.last()) {
        vin_bad_chars(s.drop_last())
    } else {
        vin_bad_chars(s.drop_last()) + seq![s.last()]
    }
}

/// The canonical form a raw string is reduced to before validation:
/// whitespace stripped from the ends and letters upper-cased.
pub open spec fn vin_normalize(s: Seq<char>) -> Seq<char> {
    seq_to_upper(trimmed(s))
}

#[derive(Debug)]
pub enum VehicleVinError {
    InvalidFormat(String),
    Empty,
    InvalidLength,
    InvalidCharacters(String),
    InvalidCheckDigit(String),
}

/// A validated vehicle identification number.
#[derive(Debug, PartialEq, Eq, Hash)]
pub struct VehicleVin {
    value: String,
}

impl Clone for VehicleVin {
    fn clone(&self) -> (r: Self)
        ensures
            r == self,
            r@ == self@,
    {
        proof {
            use_type_invariant(self);
        }
        VehicleVin { value: self.value.clone() }
    }
}

impl View for VehicleVin {
    type V = Seq<char>;

    closed spec fn view(&self) -> Seq<char> {
        self.value@
    }
}

impl VehicleVin {
    #[verifier::type_invariant]
    spec fn wf(&self) -> bool {
        vin_valid(self.value@)
    }

    /// Normalizes the raw string and validates it; succeeds exactly on
    /// well-formed numbers and stores the canonical form.
    pub fn new(value: &str) -> (r: Result<Self, VehicleVinError>)
        ensures
            r is Ok <==> vin_valid(vin_normalize(value@)),
            r matches Ok(v) ==> v@ == vin_normalize(value@),
            vin_normalize(value@).len() == 0 ==> r matches Err(VehicleVinError::Empty),
            vin_normalize(value@).len() != 0 && vin_normalize(value@).len() != 17 ==> r matches Err(
                VehicleVinError::InvalidLength,
            ),
            vin_normalize(value@).len() == 17 && vin_bad_chars(vin_normalize(value@)).len() != 0
                ==> (r matches Err(VehicleVinError::InvalidCharacters(t)) && t@ == vin_bad_chars(
                vin_normalize(value@),
            )),
            vin_normalize(value@).len() == 17 && vin_bad_chars(vin_normalize(value@)).len() == 0
                && !vin_valid(vin_normalize(value@)) ==> (r matches Err(
                VehicleVinError::InvalidCheckDigit(t,
            )) && t@ == vin_normalize(value@)),
    {
        let normalized = str_to_upper(str_trim(value));
        match Self::validate(normalized.as_str()) {
            Ok(_) => Ok(VehicleVin { value: normalized }),
            Err(e) => Err(e),
        }
    }

    /// Checks length, character set and check digit of an already
    /// normalized string, reporting the first failure.
    pub fn validate(value: &str) -> (r: Result<(), VehicleVinError>)
        ensures
            r is Ok <==> vin_valid(value@),
            value@.len() == 0 ==> r matches Err(VehicleVinError::Empty),
            value@.len() != 0 && value@.len() != 17 ==> r matches Err(
                VehicleVinError::InvalidLength,
            ),
            value@.len() == 17 && vin_bad_chars(value@).len() != 0 ==> (r matches Err(
                VehicleVinError::InvalidCharacters(t),
            ) && t@ == vin_bad_chars(value@)),
            value@.len() == 17 && vin_bad_chars(value@).len() == 0 && !vin_valid(value@) ==> (
            r matches Err(VehicleVinError::InvalidCheckDigit(t)) && t@ == value@),
    {
        let n = value.unicode_len();
        if n == 0 {
            return Err(VehicleVinError::Empty);
        }
        if n != 17 {
            return Err(VehicleVinError::InvalidLength);
        }
        let mut bad = String::new();
        let mut all_ok = true;
        let mut i: usize = 0;
        while i < 17
            invariant
                value@.len() == 17,
                0 <= i <= 17,
                bad@ == vin_bad_chars(value@.subrange(0, i as int)),
                all_ok <==> forall|j: int| 0 <= j < i ==> is_vin_char(#[trigger] value@[j]),
            decreases 17 - i,
        {
            let c = value.get_char(i);
            if !Self::is_valid_vin_character(c) {
                bad.push(c);
                all_ok = false;
            }
            proof {
                let t = value@.subrange(0, i + 1);
                assert(t.drop_last() =~= value@.subrange(0, i as int));
                assert(t.last() == value@[i as int]);
            }
            i = i + 1;
        }
        proof {
            assert(value@.subrange(0, 17) =~= value@);
        }
        proof {
            lemma_bad_chars_empty(value@);
        }
        if !all_ok {
            return Err(VehicleVinError::InvalidCharacters(bad));
        }
        if !Self::is_valid_check_digit(value) {
            return Err(VehicleVinError::InvalidCheckDigit(value.to_owned()));
        }
        Ok(())
    }

    /// Whether a character may appear in a vehicle identification number.
    pub fn is_valid_vin_character(c: char) -> (r: bool)
        ensures
            r == is_vin_char(c),
    {
        (char_is_digit(c) || ('A' <= c && c <= 'Z') || ('a' <= c && c <= 'z')) && c != 'I' && c
            != 'O' && c != 'Q'
    }

    /// Whether the 9th character equals the check character computed from
    /// the weighted character sum.
    pub fn is_valid_check_digit(vin: &str) -> (r: bool)
        requires
            vin@.len() == 17,
        ensures
            r == (vin@[8] == vin_check_char(vin@)),
    {
        let mut sum: usize = 0;
        let mut i: usize = 0;
        while i < 17
            invariant
                vin@.len() == 17,
                0 <= i <= 17,
                sum == vin_sum(vin@, i as int),
                sum <= 90 * i,
            decreases 17 - i,
        {
            if i != 8 {
                let v = Self::char_to_value(vin.get_char(i));
                let w = Self::weight_at(i);
                proof {
                    assert(v * w <= 90) by (nonlinear_arith)
                        requires
                            v <= 9,
                            w <= 10,
                    ;
                }
                sum = sum + v * w;
            }
            i = i + 1;
        }
        let remainder = sum % 11;
        let check_digit: char = if remainder == 10 {
            'X'
        } else {
            (48 + remainder as u8) as char
        };
        vin.get_char(8) == check_digit
    }

    /// The numeric value of a character in the check-digit sum.
    pub fn char_to_value(c: char) -> (r: usize)
        ensures
            r == vin_char_value(c),
            r <= 9,
    {
        if char_is_digit(c) {
            (c as u8 - 48) as usize
        } else if c == 'A' || c == 'J' {
            1
        } else if c == 'B' || c == 'K' || c == 'S' {
            2
        } else if c == 'C' || c == 'L' || c == 'T' {
            3
        } else if c == 'D' || c == 'M' || c == 'U' {
            4
        } else if c == 'E' || c == 'N' || c == 'V' {
            5
        } else if c == 'F' || c == 'W' {
            6
        } else if c == 'G' || c == 'P' || c == 'X' {
            7
        } else if c == 'H' || c == 'Y' {
            8
        } else if c == 'R' || c == 'Z' {
            9
        } else {
            0
        }
    }

    /// The weight of a position in the check-digit sum.
    fn weight_at(i: usize) -> (r: usize)
        requires
            i < 17,
        ensures
            r == vin_weight(i as int),
            r <= 10,
    {
        if i == 0 {
            8
        } else if i == 1 {
            7
        } else if i == 2 {
            6
        } else if i == 3 {
            5
        } else if i == 4 {
            4
        } else if i == 5 {
            3
        } else if i == 6 {
            2
        } else if i == 7 {
            10
        } else if i == 8 {
            0
        } else if i == 9 {
            9
        } else if i == 10 {
            8
        } else if i == 11 {
            7
        } else if i == 12 {
            6
        } else if i == 13 {
            5
        } else if i == 14 {
            4
        } else if i == 15 {
            3
        } else {
            2
        }
    }

    /// The stored canonical string.
    pub fn value(&self) -> (r: &str)
        ensures
            r@ == self@,
    {
        self.value.as_str()
    }

    /// Consumes the number, yielding the canonical string.
    pub fn into_string(self) -> (r: String)
        ensures
            r@ == self@,
    {
        self.value
    }

    /// The world manufacturer identifier: the first three characters.
    pub fn wmi(&self) -> (r: &str)
        ensures
            r@ == self@.subrange(0, 3),
    {
        proof {
            use_type_invariant(self);
        }
        self.value.as_str().substring_char(0, 3)
    }

    /// The vehicle descriptor section: characters four through nine.
    pub fn vds(&self) -> (r: &str)
        ensures
            r@ == self@.subrange(3, 9),
    {
        proof {
            use_type_invariant(self);
        }
        self.value.as_str().substring_char(3, 9)
    }

    /// The vehicle identifier section: the last eight characters.
    pub fn vis(&self) -> (r: &str)
        ensures
            r@ == self@.subrange(9, 17),
    {
        proof {
            use_type_invariant(self);
        }
        self.value.as_str().substring_char(9, 17)
    }

    /// The model-year character: the 10th position.
    pub fn model_year_code(&self) -> (r: char)
        ensures
            r == self@[9],
    {
        proof {
            use_type_invariant(self);
        }
        self.value.as_str().get_char(9)
    }

    /// The assembly-plant character: the 11th position.
    pub fn assembly_plant_code(&self) -> (r: char)
        ensures
            r == self@[10],
    {
        proof {
            use_type_invariant(self);
        }
        self.value.as_str().get_char(10)
    }
}

/// No bad characters remain exactly when every character is allowed.
proof fn lemma_bad_chars_empty(s: Seq<char>)
    ensures
        vin_bad_chars(s).len() == 0 <==> (forall|j: int|
            0 <= j < s.len() ==> is_vin_char(#[trigger] s[j])),
    decreases s.len(),
{
    if s.len() > 0 {
        lemma_bad_chars_empty(s.drop_last());
        assert(forall|j: int| 0 <= j < s.len() - 1 ==> s.drop_last()[j] == #[trigger] s[j]);
        if vin_bad_chars(s).len() == 0 {
            assert(is_vin_char(s.last()));
        }
    }
}

/// Every 17-character string drawn from the canonical character set (no
/// lower-case letters) whose 9th character is the computed check character
/// is accepted as it stands: it is its own canonical form, so parsing it
/// and rendering the result returns the input unchanged.
pub proof fn lemma_vin_round_trip(s: Seq<char>)
    requires
        s.len() == 17,
        forall|i: int| 0 <= i < 17 ==> is_vin_char(#[trigger] s[i]) && !is_lower_char(s[i]),
        s[8] == vin_check_char(s),
    ensures
        vin_valid(s),
        vin_normalize(s) == s,
{
    assert(!is_ascii_space(s[0]));
    assert(!is_ascii_space(s[16]));
    assert(trimmed(s) == s);
    assert(seq_to_upper(s) =~= s) by {
        assert(forall|i: int| 0 <= i < 17 ==> to_upper_char(#[trigger] s[i]) == s[i]);
    }
}

} // verus!

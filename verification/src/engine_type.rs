//! A vehicle's engine type: a closed set of standard kinds plus an open
//! variant for anything else, parsed from free-form text after
//! normalization.
use vstd::prelude::*;

use crate::text::is_ascii_space;
use crate::text::lemma_trimmed_noop;
use crate::text::to_lower_char;
use crate::text::char_to_lower;
use crate::text::str_eq;
use crate::text::str_trim;
use crate::text::trimmed;

verus! {

/// One step of input normalization: spaces and hyphens become
/// underscores, letters become lower case.
pub open spec fn engine_normalize_char(c: char) -> char {
    if c == ' ' || c == '-' {
        '_'
    } else {
        to_lower_char(c)
    }
}

/// The canonical form an engine-type string is reduced to before matching
/// its synonyms.
pub open spec fn engine_normalize(s: Seq<char>) -> Seq<char> {
    trimmed(s).map_values(|c: char| engine_normalize_char(c))
}

pub open spec fn names_gasoline(t: Seq<char>) -> bool {
    t == "gasoline"@ || t == "petrol"@ || t == "gas"@
}

pub open spec fn names_diesel(t: Seq<char>) -> bool {
    t == "diesel"@
}

pub open spec fn names_electric(t: Seq<char>) -> bool {
    t == "electric"@ || t == "ev"@ || t == "bev"@
}

/// What classifying the raw string `s` yields: the engine type `e`.
pub open spec fn engine_parsed(e: EngineType, s: Seq<char>) -> bool {
    let t = engine_normalize(s);
    &&& names_gasoline(t) ==> e is Gasoline
    &&& names_diesel(t) ==> e is Diesel
    &&& names_electric(t) ==> e is Electric
    &&& !(names_gasoline(t) || names_diesel(t) || names_electric(t)) ==> (e matches EngineType::Other(o)
        && o@ == trimmed(s))
}

#[derive(Debug, PartialEq, Eq, Hash)]
pub enum EngineType {
    /// Gasoline or petrol engine.
    Gasoline,
    /// Diesel engine.
    Diesel,
    /// Electric motor.
    Electric,
    /// Any other engine type, carried verbatim (trimmed).
    Other(String),
}

#[derive(Debug)]
pub enum EngineTypeError {
    InvalidType(String),
    Empty,
}

/// The storage key of an engine type: the lower-case word of a standard
/// kind, the carried text of an open one.
pub open spec fn engine_key(e: EngineType) -> Seq<char> {
    match e {
        EngineType::Gasoline => "gasoline"@,
        EngineType::Diesel => "diesel"@,
        EngineType::Electric => "electric"@,
        EngineType::Other(v) => v@,
    }
}

/// Two engine types are the same kind: equal variants, an open variant
/// by its characters.
pub open spec fn engine_eq(a: EngineType, b: EngineType) -> bool {
    match a {
        EngineType::Gasoline => b is Gasoline,
        EngineType::Diesel => b is Diesel,
        EngineType::Electric => b is Electric,
        EngineType::Other(x) => b matches EngineType::Other(y) && x@ == y@,
    }
}

impl Clone for EngineType {
    fn clone(&self) -> (r: Self)
        ensures
            r == self,
    {
        match self {
            EngineType::Gasoline => EngineType::Gasoline,
            EngineType::Diesel => EngineType::Diesel,
            EngineType::Electric => EngineType::Electric,
            EngineType::Other(v) => EngineType::Other(v.clone()),
        }
    }
}

impl EngineType {
    /// Rejects blank input, then classifies it as `from_str` does.
    pub fn new(value: &str) -> (r: Result<Self, EngineTypeError>)
        ensures
            trimmed(value@).len() == 0 ==> r matches Err(EngineTypeError::Empty),
            trimmed(value@).len() != 0 ==> {
                let t = engine_normalize(value@);
                &&& names_gasoline(t) ==> r == Ok::<_, EngineTypeError>(EngineType::Gasoline)
                &&& names_diesel(t) ==> r == Ok::<_, EngineTypeError>(EngineType::Diesel)
                &&& names_electric(t) ==> r == Ok::<_, EngineTypeError>(EngineType::Electric)
                &&& !(names_gasoline(t) || names_diesel(t) || names_electric(t)) ==> (r matches Ok(
                    EngineType::Other(o),
                ) && o@ == trimmed(value@))
            },
    {
        let t = str_trim(value);
        if t.unicode_len() == 0 {
            return Err(EngineTypeError::Empty);
        }
        Self::from_str(value)
    }

    /// Classifies a string: trims it, lower-cases it, turns spaces and
    /// hyphens into underscores, and matches the known synonyms; anything
    /// unmatched is carried as its own kind. Never rejects.
    pub fn from_str(s: &str) -> (r: Result<Self, EngineTypeError>)
        ensures
            r is Ok,
            ({
                let t = engine_normalize(s@);
                &&& names_gasoline(t) ==> r == Ok::<_, EngineTypeError>(EngineType::Gasoline)
                &&& names_diesel(t) ==> r == Ok::<_, EngineTypeError>(EngineType::Diesel)
                &&& names_electric(t) ==> r == Ok::<_, EngineTypeError>(EngineType::Electric)
                &&& !(names_gasoline(t) || names_diesel(t) || names_electric(t)) ==> (r matches Ok(
                    EngineType::Other(o),
                ) && o@ == trimmed(s@))
            }),
    {
        let tr = str_trim(s);
        let n = tr.unicode_len();
        let mut normalized = String::new();
        let mut i: usize = 0;
        while i < n
            invariant
                n == tr@.len(),
                0 <= i <= n,
                normalized@ == tr@.subrange(0, i as int).map_values(
                    |c: char| engine_normalize_char(c),
                ),
            decreases n - i,
        {
            let c = tr.get_char(i);
            if c == ' ' || c == '-' {
                normalized.push('_');
            } else {
                normalized.push(char_to_lower(c));
            }
            proof {
                assert(normalized@ =~= tr@.subrange(0, i + 1).map_values(
                    |c: char| engine_normalize_char(c),
                ));
            }
            i = i + 1;
        }
        proof {
            assert(tr@.subrange(0, n as int) =~= tr@);
        }
        let norm = normalized.as_str();
        proof {
            reveal_strlit("gasoline");
            reveal_strlit("petrol");
            reveal_strlit("gas");
            reveal_strlit("diesel");
            reveal_strlit("electric");
            reveal_strlit("ev");
            reveal_strlit("bev");
            assert("gasoline"@.len() == 8);
            assert("petrol"@.len() == 6);
            assert("gas"@.len() == 3);
            assert("diesel"@.len() == 6);
            assert("electric"@.len() == 8);
            assert("ev"@.len() == 2);
            assert("bev"@.len() == 3);
            assert("petrol"@[0] == 'p');
            assert("diesel"@[0] == 'd');
            assert("gasoline"@[0] == 'g');
            assert("electric"@[0] == 'e');
            assert("gas"@[0] == 'g');
            assert("bev"@[0] == 'b');
        }
        if str_eq(norm, "gasoline") || str_eq(norm, "petrol") || str_eq(norm, "gas") {
            Ok(EngineType::Gasoline)
        } else if str_eq(norm, "diesel") {
            Ok(EngineType::Diesel)
        } else if str_eq(norm, "electric") || str_eq(norm, "ev") || str_eq(norm, "bev") {
            Ok(EngineType::Electric)
        } else {
            Ok(EngineType::Other(tr.to_owned()))
        }
    }

    /// The storage key of the engine type.
    pub fn as_str(&self) -> (r: &str)
        ensures
            r@ == engine_key(*self),
    {
        match self {
            EngineType::Gasoline => "gasoline",
            EngineType::Diesel => "diesel",
            EngineType::Electric => "electric",
            EngineType::Other(value) => value.as_str(),
        }
    }

    /// The human-readable name of the engine type.
    pub fn display_name(&self) -> (r: &str)
        ensures
            self is Gasoline ==> r@ == "Gasoline"@,
            self is Diesel ==> r@ == "Diesel"@,
            self is Electric ==> r@ == "Electric"@,
            self matches EngineType::Other(v) ==> r@ == v@,
    {
        match self {
            EngineType::Gasoline => "Gasoline",
            EngineType::Diesel => "Diesel",
            EngineType::Electric => "Electric",
            EngineType::Other(value) => value.as_str(),
        }
    }

    /// Whether the engine is driven by an electric motor.
    pub fn is_electric_powered(&self) -> (r: bool)
        ensures
            r == (self is Electric),
    {
        match self {
            EngineType::Electric => true,
            _ => false,
        }
    }

    /// Whether the engine burns fossil fuel.
    pub fn uses_fossil_fuel(&self) -> (r: bool)
        ensures
            r == (self is Gasoline || self is Diesel),
    {
        match self {
            EngineType::Gasoline => true,
            EngineType::Diesel => true,
            _ => false,
        }
    }

    /// Whether the engine runs on an alternative fuel.
    pub fn is_alternative_fuel(&self) -> (r: bool)
        ensures
            r == (self is Electric),
    {
        match self {
            EngineType::Electric => true,
            _ => false,
        }
    }

    /// Whether this engine type is the same kind as another.
    pub fn same_as(&self, other: &EngineType) -> (r: bool)
        ensures
            r == engine_eq(*self, *other),
    {
        match self {
            EngineType::Gasoline => match other {
                EngineType::Gasoline => true,
                _ => false,
            },
            EngineType::Diesel => match other {
                EngineType::Diesel => true,
                _ => false,
            },
            EngineType::Electric => match other {
                EngineType::Electric => true,
                _ => false,
            },
            EngineType::Other(a) => match other {
                EngineType::Other(b) => crate::text::str_eq(a.as_str(), b.as_str()),
                _ => false,
            },
        }
    }

    /// The closed set of standard engine types, in a fixed order.
    pub fn standard_types() -> (r: Vec<EngineType>)
        ensures
            r@ =~= seq![EngineType::Gasoline, EngineType::Diesel, EngineType::Electric],
    {
        let mut v: Vec<EngineType> = Vec::new();
        v.push(EngineType::Gasoline);
        v.push(EngineType::Diesel);
        v.push(EngineType::Electric);
        v
    }
}

/// A standard kind round-trips: its storage key normalizes back to a
/// name of the same kind, so rendering and re-parsing returns it. An open
/// kind is only carried verbatim and may normalize onto a standard
/// synonym, so it is excluded here.
pub proof fn lemma_engine_standard_round_trip()
    ensures
        names_gasoline(engine_normalize(engine_key(EngineType::Gasoline))),
        names_diesel(engine_normalize(engine_key(EngineType::Diesel))),
        names_electric(engine_normalize(engine_key(EngineType::Electric))),
{
    reveal_strlit("gasoline");
    reveal_strlit("diesel");
    reveal_strlit("electric");
    lemma_key_normalizes_to_itself("gasoline"@);
    lemma_key_normalizes_to_itself("diesel"@);
    lemma_key_normalizes_to_itself("electric"@);
}

/// A key of lower-case letters is its own canonical form.
proof fn lemma_key_normalizes_to_itself(s: Seq<char>)
    requires
        forall|i: int| 0 <= i < s.len() ==> 'a' <= #[trigger] s[i] && s[i] <= 'z',
    ensures
        engine_normalize(s) == s,
{
    if s.len() > 0 {
        assert(!is_ascii_space(s[0]));
        assert(!is_ascii_space(s[s.len() - 1]));
    }
    lemma_trimmed_noop(s);
    assert(engine_normalize(s) =~= s) by {
        assert(forall|i: int|
            0 <= i < s.len() ==> engine_normalize_char(#[trigger] s[i]) == s[i]);
    }
}

} // verus!

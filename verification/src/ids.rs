//! Identifiers: 128-bit values generated, parsed and rendered through the
//! uuid crate, and the user-identifier value type built on them.
use vstd::prelude::*;

verus! {

/// The canonical hyphenated text of an identifier, as the uuid crate
/// renders it; a function of the value alone.
pub uninterp spec fn uuid_text_of(id: u128) -> Seq<char>;

/// The identifier a string denotes, if the uuid crate accepts it; a
/// function of the string alone.
pub uninterp spec fn uuid_of_text(s: Seq<char>) -> Option<u128>;

#[verifier::external_type_specification]
#[verifier::external_body]
pub struct ExUuidError(uuid::Error);

/// Relies on uuid::Uuid::new_v4: a randomly generated version-4
/// identifier. Nothing is promised of the value.
#[verifier::external_body]
pub(crate) fn generate_uuid() -> u128 {
    uuid::Uuid::new_v4().as_u128()
}

/// Relies on uuid::Uuid::parse_str: parses a string of hexadecimal digits
/// with optional hyphens; the result depends on the string alone.
#[verifier::external_body]
pub(crate) fn parse_uuid(s: &str) -> (r: Result<u128, uuid::Error>)
    ensures
        r matches Ok(v) ==> uuid_of_text(s@) == Some(v),
        r is Err ==> uuid_of_text(s@) is None,
{
    match uuid::Uuid::parse_str(s) {
        Ok(u) => Ok(u.as_u128()),
        Err(e) => Err(e),
    }
}

/// Relies on uuid::Uuid's Display through ToString: the canonical
/// hyphenated text; a function of the value alone (Uuid::from_u128 only
/// converts the argument).
#[verifier::external_body]
pub(crate) fn format_uuid(id: u128) -> (r: String)
    ensures
        r@ == uuid_text_of(id),
{
    uuid::Uuid::from_u128(id).to_string()
}

/// A user identifier: a 128-bit value carried as such through the core.
#[derive(Debug, PartialEq, Eq, Hash, Clone, Copy)]
pub struct UserId(u128);

impl UserId {
    /// Wraps an existing identifier value.
    pub fn new(id: u128) -> (r: Self)
        ensures
            r.value_spec() == id,
    {
        UserId(id)
    }

    /// A freshly generated random identifier.
    pub fn generate() -> Self {
        UserId(generate_uuid())
    }

    /// Parses an identifier from its textual form; fails exactly where
    /// the text denotes no identifier.
    pub fn from_string(id: &str) -> (r: Result<Self, uuid::Error>)
        ensures
            r matches Ok(u) ==> uuid_of_text(id@) == Some(u.value_spec()),
            r is Err ==> uuid_of_text(id@) is None,
    {
        match parse_uuid(id) {
            Ok(v) => Ok(UserId(v)),
            Err(e) => Err(e),
        }
    }

    /// The identifier value, for specifications.
    pub closed spec fn value_spec(&self) -> u128 {
        self.0
    }

    /// The identifier value.
    pub fn value(&self) -> (r: u128)
        ensures
            r == self.value_spec(),
    {
        self.0
    }

    /// Consumes the wrapper, yielding the identifier value.
    pub fn into_inner(self) -> (r: u128)
        ensures
            r == self.value_spec(),
    {
        self.0
    }

    /// The canonical hyphenated text of the identifier.
    pub fn to_text(&self) -> (r: String)
        ensures
            r@ == uuid_text_of(self.value_spec()),
    {
        format_uuid(self.0)
    }
}

} // verus!

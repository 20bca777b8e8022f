//! The UUID datatype (RFC 4122).  Construction from text accepts only a
//! syntactically valid UUID string and stores the parser's normalized
//! rendering, so a live instance always holds the canonical form.  The
//! zero-argument generator produces a fresh version-4 UUID.

use vstd::prelude::*;

use crate::error::Error;
use crate::validate::Validate;
use crate::Base;

verus! {

/// What the UUID parser makes of a text: `None` when it does not parse,
/// otherwise `Some` of the normalized rendering.  Named after the parser,
/// which decides it from the characters alone.  A normalized rendering is
/// a fixed point: parsing it again yields it unchanged.
pub uninterp spec fn spec_uuid_parse(s: Seq<char>) -> Option<Seq<char>>;

/// Relies on `uuid::Uuid::parse_str` and the hyphenated `to_string`
/// rendering: parsing succeeds exactly for syntactically valid UUID text,
/// the rendering depends on the parsed value alone, and re-parsing a
/// rendering reproduces it.
#[verifier::external_body]
fn uuid_normalize(value: &str) -> (r: Option<String>)
    ensures
        r is Some <==> spec_uuid_parse(value@) is Some,
        r matches Some(c) ==> spec_uuid_parse(value@) == Some(c@) && spec_uuid_parse(c@) == Some(
            c@,
        ),
{
    match uuid::Uuid::parse_str(value) {
        Ok(u) => Some(u.to_string()),
        Err(_) => None,
    }
}

/// Relies on `uuid::Uuid::new_v4` and `to_string`: every generated UUID
/// renders to canonical text that parses back to itself.
#[verifier::external_body]
fn uuid_generate() -> (r: String)
    ensures
        spec_uuid_parse(r@) == Some(r@),
{
    uuid::Uuid::new_v4().to_string()
}

/// A stable, unique identifier per RFC 4122, stored in the parser's
/// normalized textual form.
#[derive(Debug, Clone)]
pub struct UUIDDatatype(String);

impl View for UUIDDatatype {
    type V = Seq<char>;

    closed spec fn view(&self) -> Seq<char> {
        self.0@
    }
}

impl UUIDDatatype {
    /// The well-formedness invariant: the wrapped text is the canonical
    /// rendering of a UUID, so re-parsing it reproduces it.
    pub open spec fn wf(&self) -> bool {
        spec_uuid_parse(self@) == Some(self@)
    }

    /// Generate a fresh version-4 UUID.  The result does not go through
    /// validation, but it satisfies the same invariant: its text would be
    /// accepted if fed back in.
    pub fn new() -> (r: Self)
        ensures
            r.wf(),
    {
        UUIDDatatype(uuid_generate())
    }

    /// Validate `value` and store its normalized rendering on success.
    /// Case and format normalization may change the text: the stored form
    /// is the parser's canonical rendering, not necessarily the input.
    pub fn try_from(value: &str) -> (r: Result<Self, Error>)
        ensures
            r is Ok <==> spec_uuid_parse(value@) is Some,
            r matches Ok(v) ==> spec_uuid_parse(value@) == Some(v@) && v.wf(),
            r is Err ==> r == Err::<Self, Error>(Error::UuidParse),
    {
        match uuid_normalize(value) {
            Some(c) => Ok(UUIDDatatype(c)),
            None => Err(Error::UuidParse),
        }
    }

    /// The wrapped canonical text.
    pub fn as_str(&self) -> (r: &str)
        ensures
            r@ == self@,
    {
        self.0.as_str()
    }

    /// The wrapped canonical text, as an owned string.
    pub fn to_string(&self) -> (r: String)
        ensures
            r@ == self@,
    {
        self.0.clone()
    }
}

impl Default for UUIDDatatype {
    fn default() -> (r: Self)
        ensures
            r.wf(),
    {
        Self::new()
    }
}

impl Validate for UUIDDatatype {
    fn validate(value: &str) -> (r: Result<(), Error>)
        ensures
            r is Ok <==> spec_uuid_parse(value@) is Some,
            r is Err ==> r == Err::<(), Error>(Error::UuidParse),
    {
        match uuid_normalize(value) {
            Some(_) => Ok(()),
            None => Err(Error::UuidParse),
        }
    }
}

impl Base for UUIDDatatype {
    fn base_type() -> (r: String)
        ensures
            r@ == "String"@,
    {
        "String".to_owned()
    }

    fn ref_type() -> (r: String)
        ensures
            r@ == "str"@,
    {
        "str".to_owned()
    }
}

/// What construction stores for a given raw text: the normalized
/// rendering when the text parses, nothing otherwise.
pub open spec fn spec_construct_uuid(s: Seq<char>) -> Option<Seq<char>> {
    spec_uuid_parse(s)
}

/// A live instance holds canonical text: validation accepts its rendering
/// and reconstruction stores it unchanged.  With the constructors'
/// contracts — both `try_from` and the generator yield well-formed
/// instances — this is the round-trip law for UUIDs, up to the
/// normalization that construction from raw text performs.
pub proof fn lemma_uuid_round_trip(v: UUIDDatatype)
    requires
        v.wf(),
    ensures
        spec_construct_uuid(v@) == Some(v@),
{
}

} // verus!

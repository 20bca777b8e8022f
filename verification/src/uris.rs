//! The URI datatype family: an absolute-URI type that requires a scheme,
//! and a URI-reference type that also accepts relative references.

use vstd::prelude::*;

use crate::error::Error;
use crate::validate::Validate;
use crate::Base;

verus! {

/// What the URI parser decides about a text: `None` when it is not a
/// well-formed URI reference, otherwise `Some(b)` where `b` says whether
/// the reference carries a scheme (and so is an absolute form).  Named
/// after the parser, which decides it from the characters alone.
pub uninterp spec fn spec_uri_parse(s: Seq<char>) -> Option<bool>;

/// Relies on `fluent_uri::UriRef::parse` and `UriRef::has_scheme`: a URI
/// reference either fails to parse or parses with or without a scheme,
/// and the outcome depends on the characters alone.
#[verifier::external_body]
fn uri_classify(value: &str) -> (r: Option<bool>)
    ensures
        r == spec_uri_parse(value@),
{
    match fluent_uri::UriRef::parse(value) {
        Ok(u) => Some(u.has_scheme()),
        Err(_) => None,
    }
}

/// An absolute URI, with scheme.  For relative references, use
/// [`URIReferenceDatatype`].
#[derive(Debug, Clone)]
pub struct URIDatatype(String);

impl View for URIDatatype {
    type V = Seq<char>;

    closed spec fn view(&self) -> Seq<char> {
        self.0@
    }
}

impl URIDatatype {
    /// The well-formedness invariant: the wrapped text parses as a URI
    /// reference that carries a scheme.
    pub open spec fn wf(&self) -> bool {
        spec_uri_parse(self@) == Some(true)
    }

    /// Validate `value` and wrap it unchanged on success.
    pub fn try_from(value: &str) -> (r: Result<Self, Error>)
        ensures
            r is Ok <==> spec_uri_parse(value@) == Some(true),
            r matches Ok(v) ==> v@ == value@ && v.wf(),
            spec_uri_parse(value@) is None ==> r == Err::<Self, Error>(Error::UriParse),
            spec_uri_parse(value@) == Some(false) ==> r == Err::<Self, Error>(Error::UriAbsolute),
    {
        match Self::validate(value) {
            Ok(()) => Ok(URIDatatype(value.to_owned())),
            Err(e) => Err(e),
        }
    }

    /// The wrapped text.
    pub fn as_str(&self) -> (r: &str)
        ensures
            r@ == self@,
    {
        self.0.as_str()
    }
}

impl core::str::FromStr for URIDatatype {
    type Err = Error;

    fn from_str(s: &str) -> (r: Result<Self, Error>) {
        Self::try_from(s)
    }
}

impl Validate for URIDatatype {
    fn validate(value: &str) -> (r: Result<(), Error>)
        ensures
            r is Ok <==> spec_uri_parse(value@) == Some(true),
            spec_uri_parse(value@) is None ==> r == Err::<(), Error>(Error::UriParse),
            spec_uri_parse(value@) == Some(false) ==> r == Err::<(), Error>(Error::UriAbsolute),
    {
        match uri_classify(value) {
            Some(true) => Ok(()),
            Some(false) => Err(Error::UriAbsolute),
            None => Err(Error::UriParse),
        }
    }
}

impl Base for URIDatatype {
    fn base_type() -> (r: String)
        ensures
            r@ == "String"@,
    {
        "String".to_owned()
    }

    fn ref_type() -> (r: String)
        ensures
            r@ == "str"@,
    {
        "str".to_owned()
    }
}

/// A URI reference: either an absolute URI or a relative reference.
#[derive(Debug, Clone)]
pub struct URIReferenceDatatype(String);

impl View for URIReferenceDatatype {
    type V = Seq<char>;

    closed spec fn view(&self) -> Seq<char> {
        self.0@
    }
}

impl URIReferenceDatatype {
    /// The well-formedness invariant: the wrapped text parses as a URI
    /// reference, with or without a scheme.
    pub open spec fn wf(&self) -> bool {
        spec_uri_parse(self@) is Some
    }

    /// Validate `value` and wrap it unchanged on success.
    pub fn try_from(value: &str) -> (r: Result<Self, Error>)
        ensures
            r is Ok <==> spec_uri_parse(value@) is Some,
            r matches Ok(v) ==> v@ == value@ && v.wf(),
            r is Err ==> r == Err::<Self, Error>(Error::UriParse),
    {
        match Self::validate(value) {
            Ok(()) => Ok(URIReferenceDatatype(value.to_owned())),
            Err(e) => Err(e),
        }
    }

    /// The wrapped text.
    pub fn as_str(&self) -> (r: &str)
        ensures
            r@ == self@,
    {
        self.0.as_str()
    }
}

impl core::str::FromStr for URIReferenceDatatype {
    type Err = Error;

    fn from_str(s: &str) -> (r: Result<Self, Error>) {
        Self::try_from(s)
    }
}

impl Validate for URIReferenceDatatype {
    fn validate(value: &str) -> (r: Result<(), Error>)
        ensures
            r is Ok <==> spec_uri_parse(value@) is Some,
            r is Err ==> r == Err::<(), Error>(Error::UriParse),
    {
        match uri_classify(value) {
            Some(_) => Ok(()),
            None => Err(Error::UriParse),
        }
    }
}

impl Base for URIReferenceDatatype {
    fn base_type() -> (r: String)
        ensures
            r@ == "String"@,
    {
        "String".to_owned()
    }

    fn ref_type() -> (r: String)
        ensures
            r@ == "str"@,
    {
        "str".to_owned()
    }
}

/// Every text an absolute URI accepts, a URI reference accepts too: the
/// absolute type's rule strictly refines the reference type's rule.
pub proof fn lemma_absolute_uri_is_reference(s: Seq<char>)
    requires
        spec_uri_parse(s) == Some(true),
    ensures
        spec_uri_parse(s) is Some,
{
}

/// What construction stores for the absolute-URI type.
pub open spec fn spec_construct_uri(s: Seq<char>) -> Option<Seq<char>> {
    if spec_uri_parse(s) == Some(true) {
        Some(s)
    } else {
        None
    }
}

/// What construction stores for the URI-reference type.
pub open spec fn spec_construct_uri_reference(s: Seq<char>) -> Option<Seq<char>> {
    if spec_uri_parse(s) is Some {
        Some(s)
    } else {
        None
    }
}

/// Round-trip: both URI types store accepted text unchanged, so rendering
/// a value and constructing again accepts it and stores the same text.
pub proof fn lemma_uri_round_trip(s: Seq<char>)
    ensures
        spec_construct_uri(s) matches Some(t) ==> spec_construct_uri(t) == Some(t),
        spec_construct_uri_reference(s) matches Some(t) ==> spec_construct_uri_reference(t)
            == Some(t),
{
}

} // verus!

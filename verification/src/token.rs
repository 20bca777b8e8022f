//! The token datatype: a wrapper over [`NCName`] that inherits its
//! character-class rule unchanged.

use vstd::prelude::*;

use crate::error::Error;
use crate::nc_name::{spec_valid_ncname, spec_is_start_char, spec_construct_ncname, NCName};
use crate::validate::Validate;
use crate::{Base, Metaschema, StringType};

verus! {

/// The human description of [`TokenDatatype`], published as schema
/// metadata.
pub const TOKEN_DESCRIPTION: &'static str = "A non-colonized name as defined by XML Schema Part 2: Datatypes Second Edition. https://www.w3.org/TR/xmlschema11-2/#NCName.";

/// A non-colonized name as defined by XML Schema Part 2: Datatypes Second
/// Edition.  Validation delegates to [`NCName`].
#[derive(Debug, Clone)]
pub struct TokenDatatype(NCName);

impl View for TokenDatatype {
    type V = Seq<char>;

    closed spec fn view(&self) -> Seq<char> {
        self.0@
    }
}

impl TokenDatatype {
    /// The well-formedness invariant: the wrapped text is a valid
    /// non-colonized name.
    pub open spec fn wf(&self) -> bool {
        spec_valid_ncname(self@)
    }

    /// Validate `value` as a non-colonized name and wrap it unchanged on
    /// success.
    pub fn new_if_valid(value: &str) -> (r: Result<Self, Error>)
        ensures
            r is Ok <==> spec_valid_ncname(value@),
            r matches Ok(token) ==> token@ == value@ && token.wf(),
            (value@.len() > 0 && !spec_is_start_char(value@[0])) ==> r == Err::<Self, Error>(
                Error::NCNameIllegalFirstChar,
            ),
            (value@.len() > 0 && spec_is_start_char(value@[0]) && !spec_valid_ncname(value@))
                ==> r == Err::<Self, Error>(Error::NCNameIllegalChar),
    {
        match NCName::new_if_valid(value) {
            Ok(name) => Ok(TokenDatatype(name)),
            Err(e) => Err(e),
        }
    }

    /// Validate `value` and wrap it unchanged on success.
    pub fn try_from(value: &str) -> (r: Result<Self, Error>)
        ensures
            r is Ok <==> spec_valid_ncname(value@),
            r matches Ok(token) ==> token@ == value@ && token.wf(),
    {
        Self::new_if_valid(value)
    }

    /// The wrapped text.
    pub fn as_str(&self) -> (r: &str)
        ensures
            r@ == self@,
    {
        self.0.as_str()
    }
}

impl core::str::FromStr for TokenDatatype {
    type Err = Error;

    fn from_str(s: &str) -> (r: Result<Self, Error>) {
        Self::new_if_valid(s)
    }
}

impl Validate for TokenDatatype {
    fn validate(value: &str) -> (r: Result<(), Error>)
        ensures
            r is Ok <==> spec_valid_ncname(value@),
            (value@.len() > 0 && !spec_is_start_char(value@[0])) ==> r == Err::<(), Error>(
                Error::NCNameIllegalFirstChar,
            ),
            (value@.len() > 0 && spec_is_start_char(value@[0]) && !spec_valid_ncname(value@))
                ==> r == Err::<(), Error>(Error::NCNameIllegalChar),
    {
        match NCName::new_if_valid(value) {
            Ok(_) => Ok(()),
            Err(e) => Err(e),
        }
    }
}

impl Metaschema for TokenDatatype {
    fn _type() -> (r: Option<&'static str>)
        ensures
            r matches Some(t) && t@ == "string"@,
    {
        Some("string")
    }

    fn description() -> (r: Option<&'static str>)
        ensures
            r matches Some(d) && d@ == TOKEN_DESCRIPTION@,
    {
        Some(TOKEN_DESCRIPTION)
    }
}

impl StringType for TokenDatatype {
    fn format() -> (r: Option<&'static str>)
        ensures
            r is None,
    {
        None
    }

    fn pattern() -> (r: Option<&'static str>)
        ensures
            r matches Some(p) && p@ == "^(\\p{{L}}|_)(\\p{{L}}|\\p{{N}}|[.\\-_])*$"@,
    {
        Some("^(\\p{{L}}|_)(\\p{{L}}|\\p{{N}}|[.\\-_])*$")
    }

    fn content_encoding() -> (r: Option<&'static str>)
        ensures
            r is None,
    {
        None
    }
}

impl Base for TokenDatatype {
    fn base_type() -> (r: String)
        ensures
            r@ == "String"@,
    {
        "String".to_owned()
    }

    fn ref_type() -> (r: String)
        ensures
            r@ == "str"@,
    {
        "str".to_owned()
    }
}

/// Round-trip: a token constructed from accepted text keeps that text, so
/// rendering it and constructing again accepts it and stores the same text.
pub proof fn lemma_token_round_trip(s: Seq<char>)
    requires
        spec_construct_ncname(s) is Some,
    ensures
        spec_construct_ncname(spec_construct_ncname(s)->Some_0) == spec_construct_ncname(s),
{
}

} // verus!

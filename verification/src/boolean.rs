//! The boolean datatype: a wrapper over `bool` whose textual form is the
//! JSON literal `true` or `false`.

use vstd::prelude::*;

use crate::error::Error;
use crate::validate::Validate;
use crate::{Base, Metaschema};

verus! {

/// The human description of [`BooleanDatatype`], published as schema
/// metadata.
pub const BOOLEAN_DESCRIPTION: &'static str = "A binary value that is either: true or false.";

/// The four characters JSON allows around a value.
pub open spec fn spec_is_json_ws(c: char) -> bool {
    c == ' ' || c == '\n' || c == '\t' || c == '\r'
}

/// `s` with its leading JSON white space removed.
pub open spec fn spec_trim_leading(s: Seq<char>) -> Seq<char>
    decreases s.len(),
{
    if s.len() > 0 && spec_is_json_ws(s[0]) {
        spec_trim_leading(s.drop_first())
    } else {
        s
    }
}

/// `s` with its trailing JSON white space removed.
pub open spec fn spec_trim_trailing(s: Seq<char>) -> Seq<char>
    decreases s.len(),
{
    if s.len() > 0 && spec_is_json_ws(s.last()) {
        spec_trim_trailing(s.drop_last())
    } else {
        s
    }
}

/// A text is a JSON boolean when, stripped of surrounding JSON white
/// space, it reads exactly `true` or `false`.
pub open spec fn spec_json_bool_ok(s: Seq<char>) -> bool {
    let t = spec_trim_trailing(spec_trim_leading(s));
    t == "true"@ || t == "false"@
}

/// Relies on `serde_json::from_str::<bool>`: it accepts exactly the text
/// `true` or `false` surrounded by JSON white space, and its outcome
/// depends on the characters alone.
#[verifier::external_body]
fn json_bool_accepted(value: &str) -> (r: bool)
    ensures
        r == spec_json_bool_ok(value@),
{
    serde_json::from_str::<bool>(value).is_ok()
}

/// A binary value that is either true or false.
#[derive(Debug, Clone)]
pub struct BooleanDatatype(bool);

impl View for BooleanDatatype {
    type V = bool;

    closed spec fn view(&self) -> bool {
        self.0
    }
}

impl BooleanDatatype {
    /// Wrap a boolean; no validation is involved because every `bool` is a
    /// valid instance.
    pub fn from(value: bool) -> (r: Self)
        ensures
            r@ == value,
    {
        BooleanDatatype(value)
    }

    /// Wrap a boolean read by reference; construction cannot fail.
    pub fn try_from(value: &bool) -> (r: Result<Self, Error>)
        ensures
            r matches Ok(v) && v@ == *value,
    {
        Ok(BooleanDatatype(*value))
    }

    /// The wrapped boolean.
    pub fn value(&self) -> (r: bool)
        ensures
            r == self@,
    {
        self.0
    }

    /// The canonical textual form: `true` or `false`.
    pub fn to_string(&self) -> (r: String)
        ensures
            self@ ==> r@ == "true"@,
            !self@ ==> r@ == "false"@,
    {
        if self.0 {
            "true".to_owned()
        } else {
            "false".to_owned()
        }
    }
}

impl Validate for BooleanDatatype {
    fn validate(value: &str) -> (r: Result<(), Error>)
        ensures
            r is Ok <==> spec_json_bool_ok(value@),
            r is Err ==> r == Err::<(), Error>(Error::BooleanParse),
    {
        if json_bool_accepted(value) {
            Ok(())
        } else {
            Err(Error::BooleanParse)
        }
    }
}

impl Metaschema for BooleanDatatype {
    fn _type() -> (r: Option<&'static str>)
        ensures
            r matches Some(t) && t@ == "boolean"@,
    {
        Some("boolean")
    }

    fn description() -> (r: Option<&'static str>)
        ensures
            r matches Some(d) && d@ == BOOLEAN_DESCRIPTION@,
    {
        Some(BOOLEAN_DESCRIPTION)
    }
}

impl Base for BooleanDatatype {
    fn base_type() -> (r: String)
        ensures
            r@ == "bool"@,
    {
        "bool".to_owned()
    }

    fn ref_type() -> (r: String)
        ensures
            r@ == "bool"@,
    {
        "bool".to_owned()
    }
}

/// Round-trip: the canonical rendering of a wrapped boolean is itself a
/// valid JSON boolean, so it is accepted on reconstruction.
pub proof fn lemma_boolean_round_trip(b: bool)
    ensures
        b ==> spec_json_bool_ok("true"@),
        !b ==> spec_json_bool_ok("false"@),
{
    reveal_strlit("true");
    reveal_strlit("false");
    assert(spec_trim_leading("true"@) == "true"@);
    assert(spec_trim_trailing("true"@) == "true"@);
    assert(spec_trim_leading("false"@) == "false"@);
    assert(spec_trim_trailing("false"@) == "false"@);
}

} // verus!

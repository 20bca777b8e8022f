//! The closed set of failure kinds that validation and parsing can produce.

use vstd::prelude::*;

verus! {

/// Every way that constructing a datatype can fail.  Each kind is terminal
/// for the construction attempt that produced it: a failed construction
/// yields an error value and no instance, and the library neither retries
/// nor substitutes a default.
///
/// The kinds that report an outside parser's refusal (`AddressParse`,
/// `UuidParse`, `DateParse`, `UriParse`, `DurationParse`) carry no cause
/// value: the parsers' own error types cannot appear in verified code, and
/// the kind already names the failing stage, which is all the library's
/// rendering of these errors ever showed.  A caller that needs the
/// parser's diagnostic can re-run the parser on the rejected text.
#[derive(Debug, Clone)]
pub enum Error {
    /// An IP address literal did not parse.
    AddressParse,
    /// Text offered as a boolean was neither `true` nor `false`.
    BooleanParse,
    /// Text offered as a UUID did not parse.
    UuidParse,
    /// Text offered as a calendar date or timestamp did not parse.
    DateParse,
    /// Text offered as a duration did not parse, or did not decompose into
    /// the unit granularity the datatype requires.
    DurationParse,
    /// A string constraint was violated; the payload says which.
    StringParse(String),
    /// Text offered as a URI did not parse.
    UriParse,
    /// A URI parsed, but the datatype requires an absolute URI and the text
    /// had no scheme.
    UriAbsolute,
    /// The first character of an identifier is outside the start-character
    /// class.
    NCNameIllegalFirstChar,
    /// A character after the first of an identifier is outside the
    /// name-character class.
    NCNameIllegalChar,
    /// A type name looked up in the registry is not a declared datatype;
    /// the payload is the offending name.
    UnrecognizedTypeName(String),
}

} // verus!

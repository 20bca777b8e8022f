//! Validated domain primitive types for the scalar fields of a structured
//! document format: booleans, numbers, strings, identifiers, dates,
//! durations, URIs and UUIDs.
//!
//! Every datatype wraps exactly one scalar storage kind, enforces its format
//! rule when it is constructed from raw text, and exposes fixed, type-level
//! format metadata for schema generation.  A live instance has always passed
//! validation; a failed construction yields an [`Error`] and no instance.

use vstd::prelude::*;

pub mod boolean;
pub mod dates;
pub mod error;
pub mod nc_name;
pub mod numbers;
pub mod strings;
pub mod strutil;
pub mod token;
pub mod uris;
pub mod uuid;
pub mod validate;

pub use crate::boolean::BooleanDatatype;
pub use crate::dates::DateDatatype;
pub use crate::dates::DateTimeDatatype;
pub use crate::dates::DateTimeWithTimezoneDatatype;
pub use crate::dates::DayTimeDurationDatatype;
pub use crate::dates::YearMonthDurationDatatype;
pub use crate::error::Error;
pub use crate::numbers::IntegerDatatype;
pub use crate::numbers::NonNegativeIntegerDatatype;
pub use crate::numbers::PositiveIntegerDatatype;
pub use crate::strings::Base64Datatype;
pub use crate::strings::EmailAddressDatatype;
pub use crate::strings::HostnameDatatype;
pub use crate::strings::IPV4AddressDatatype;
pub use crate::strings::IPV6AddressDatatype;
pub use crate::strings::MarkupLineDatatype;
pub use crate::strings::MarkupMultilineDatatype;
pub use crate::strings::StringDatatype;
pub use crate::token::TokenDatatype;
pub use crate::uris::URIDatatype;
pub use crate::uris::URIReferenceDatatype;
pub use crate::uuid::UUIDDatatype;
pub use crate::validate::Validate;

use crate::strutil::str_eq;

verus! {

/// Type-level schema facts shared by every datatype: an optional declared
/// kind tag (for example `"string"` or `"boolean"`) and an optional human
/// description.  Both are pure functions of the type, never of an instance.
pub trait Metaschema {
    fn _type() -> Option<&'static str>;

    fn description() -> Option<&'static str>;
}

/// Numeric schema facts: the advisory minimum and maximum of a numeric
/// datatype.  The bounds are schema metadata; they are not themselves
/// enforced by validation.
pub trait NumberType {
    fn minimum() -> Option<i64>;

    fn maximum() -> Option<i64>;
}

/// Textual schema facts: an optional named format tag (for example
/// `"ipv4"`), an optional regular-expression pattern, and an optional
/// content-encoding tag (for example `"base64"`).
pub trait StringType {
    fn format() -> Option<&'static str>;

    fn pattern() -> Option<&'static str>;

    fn content_encoding() -> Option<&'static str>;
}

/// The storage representation of a datatype: the name of the underlying
/// scalar type and the name of the type used when passing it by reference.
pub trait Base {
    fn base_type() -> String;

    fn ref_type() -> String;
}

/// The registry's storage-kind table: the name of the underlying scalar
/// type of each declared datatype, or nothing for a name outside the
/// closed set.
pub open spec fn spec_base_type_of(s: Seq<char>) -> Option<Seq<char>> {
    if s == "BooleanDatatype"@ {
        Some("bool"@)
    } else if s == "DateDatatype"@ {
        Some("String"@)
    } else if s == "DateTimeDatatype"@ {
        Some("String"@)
    } else if s == "DateTimeWithTimezoneDatatype"@ {
        Some("String"@)
    } else if s == "DayTimeDurationDatatype"@ {
        Some("String"@)
    } else if s == "YearMonthDurationDatatype"@ {
        Some("String"@)
    } else if s == "DecimalDatatype"@ {
        Some("f64"@)
    } else if s == "IntegerDatatype"@ {
        Some("i64"@)
    } else if s == "NonNegativeIntegerDatatype"@ {
        Some("u64"@)
    } else if s == "PositiveIntegerDatatype"@ {
        Some("u64"@)
    } else if s == "StringDatatype"@ {
        Some("String"@)
    } else if s == "Base64Datatype"@ {
        Some("String"@)
    } else if s == "EmailAddressDatatype"@ {
        Some("String"@)
    } else if s == "HostnameDatatype"@ {
        Some("String"@)
    } else if s == "IPV4AddressDatatype"@ {
        Some("String"@)
    } else if s == "IPV6AddressDatatype"@ {
        Some("String"@)
    } else if s == "TokenDatatype"@ {
        Some("String"@)
    } else if s == "URIDatatype"@ {
        Some("String"@)
    } else if s == "URIReferenceDatatype"@ {
        Some("String"@)
    } else if s == "UUIDDatatype"@ {
        Some("String"@)
    } else {
        None
    }
}

/// The registry's reference-kind table: the name of the type used when
/// passing each declared datatype's value by reference, or nothing for a
/// name outside the closed set.
pub open spec fn spec_ref_type_of(s: Seq<char>) -> Option<Seq<char>> {
    if s == "BooleanDatatype"@ {
        Some("bool"@)
    } else if s == "DateDatatype"@ {
        Some("str"@)
    } else if s == "DateTimeDatatype"@ {
        Some("str"@)
    } else if s == "DateTimeWithTimezoneDatatype"@ {
        Some("str"@)
    } else if s == "DayTimeDurationDatatype"@ {
        Some("str"@)
    } else if s == "YearMonthDurationDatatype"@ {
        Some("str"@)
    } else if s == "DecimalDatatype"@ {
        Some("&f64"@)
    } else if s == "IntegerDatatype"@ {
        Some("&i64"@)
    } else if s == "NonNegativeIntegerDatatype"@ {
        Some("&u64"@)
    } else if s == "PositiveIntegerDatatype"@ {
        Some("&u64"@)
    } else if s == "StringDatatype"@ {
        Some("str"@)
    } else if s == "Base64Datatype"@ {
        Some("str"@)
    } else if s == "EmailAddressDatatype"@ {
        Some("str"@)
    } else if s == "HostnameDatatype"@ {
        Some("str"@)
    } else if s == "IPV4AddressDatatype"@ {
        Some("str"@)
    } else if s == "IPV6AddressDatatype"@ {
        Some("str"@)
    } else if s == "TokenDatatype"@ {
        Some("str"@)
    } else if s == "URIDatatype"@ {
        Some("str"@)
    } else if s == "URIReferenceDatatype"@ {
        Some("str"@)
    } else if s == "UUIDDatatype"@ {
        Some("str"@)
    } else {
        None
    }
}

/// A name is a declared datatype exactly when the registry resolves it.
pub open spec fn spec_registered(s: Seq<char>) -> bool {
    spec_base_type_of(s) is Some
}

/// Resolve a datatype's symbolic name to the name of its underlying
/// storage kind.  Every name outside the closed set of declared datatypes
/// fails with [`Error::UnrecognizedTypeName`] carrying that name.
pub fn get_base_type(name: &str) -> (r: Result<String, Error>)
    ensures
        r is Ok <==> spec_registered(name@),
        r matches Ok(b) ==> spec_base_type_of(name@) == Some(b@),
        r matches Err(e) ==> (e matches Error::UnrecognizedTypeName(n) && n@ == name@),
{
    if str_eq(name, "BooleanDatatype") {
        Ok(BooleanDatatype::base_type())
    } else if str_eq(name, "DateDatatype") {
        Ok(DateDatatype::base_type())
    } else if str_eq(name, "DateTimeDatatype") {
        Ok(DateTimeDatatype::base_type())
    } else if str_eq(name, "DateTimeWithTimezoneDatatype") {
        Ok(DateTimeWithTimezoneDatatype::base_type())
    } else if str_eq(name, "DayTimeDurationDatatype") {
        Ok(DayTimeDurationDatatype::base_type())
    } else if str_eq(name, "YearMonthDurationDatatype") {
        Ok(YearMonthDurationDatatype::base_type())
    } else if str_eq(name, "DecimalDatatype") {
        // The decimal datatype stores a float, which this library keeps
        // outside its verified core; the registry still answers for it.
        Ok("f64".to_owned())
    } else if str_eq(name, "IntegerDatatype") {
        Ok(IntegerDatatype::base_type())
    } else if str_eq(name, "NonNegativeIntegerDatatype") {
        Ok(NonNegativeIntegerDatatype::base_type())
    } else if str_eq(name, "PositiveIntegerDatatype") {
        Ok(PositiveIntegerDatatype::base_type())
    } else if str_eq(name, "StringDatatype") {
        Ok(StringDatatype::base_type())
    } else if str_eq(name, "Base64Datatype") {
        Ok(Base64Datatype::base_type())
    } else if str_eq(name, "EmailAddressDatatype") {
        Ok(EmailAddressDatatype::base_type())
    } else if str_eq(name, "HostnameDatatype") {
        Ok(HostnameDatatype::base_type())
    } else if str_eq(name, "IPV4AddressDatatype") {
        Ok(IPV4AddressDatatype::base_type())
    } else if str_eq(name, "IPV6AddressDatatype") {
        Ok(IPV6AddressDatatype::base_type())
    } else if str_eq(name, "TokenDatatype") {
        Ok(TokenDatatype::base_type())
    } else if str_eq(name, "URIDatatype") {
        Ok(URIDatatype::base_type())
    } else if str_eq(name, "URIReferenceDatatype") {
        Ok(URIReferenceDatatype::base_type())
    } else if str_eq(name, "UUIDDatatype") {
        Ok(UUIDDatatype::base_type())
    } else {
        Err(Error::UnrecognizedTypeName(name.to_owned()))
    }
}

/// Resolve a datatype's symbolic name to the name of its by-reference
/// representation.  Every name outside the closed set of declared
/// datatypes fails with [`Error::UnrecognizedTypeName`] carrying that
/// name.
pub fn get_ref_type(name: &str) -> (r: Result<String, Error>)
    ensures
        r is Ok <==> spec_registered(name@),
        r matches Ok(b) ==> spec_ref_type_of(name@) == Some(b@),
        r matches Err(e) ==> (e matches Error::UnrecognizedTypeName(n) && n@ == name@),
{
    if str_eq(name, "BooleanDatatype") {
        Ok(BooleanDatatype::ref_type())
    } else if str_eq(name, "DateDatatype") {
        Ok(DateDatatype::ref_type())
    } else if str_eq(name, "DateTimeDatatype") {
        Ok(DateTimeDatatype::ref_type())
    } else if str_eq(name, "DateTimeWithTimezoneDatatype") {
        Ok(DateTimeWithTimezoneDatatype::ref_type())
    } else if str_eq(name, "DayTimeDurationDatatype") {
        Ok(DayTimeDurationDatatype::ref_type())
    } else if str_eq(name, "YearMonthDurationDatatype") {
        Ok(YearMonthDurationDatatype::ref_type())
    } else if str_eq(name, "DecimalDatatype") {
        // See `get_base_type` on the decimal datatype.
        Ok("&f64".to_owned())
    } else if str_eq(name, "IntegerDatatype") {
        Ok(IntegerDatatype::ref_type())
    } else if str_eq(name, "NonNegativeIntegerDatatype") {
        Ok(NonNegativeIntegerDatatype::ref_type())
    } else if str_eq(name, "PositiveIntegerDatatype") {
        Ok(PositiveIntegerDatatype::ref_type())
    } else if str_eq(name, "StringDatatype") {
        Ok(StringDatatype::ref_type())
    } else if str_eq(name, "Base64Datatype") {
        Ok(Base64Datatype::ref_type())
    } else if str_eq(name, "EmailAddressDatatype") {
        Ok(EmailAddressDatatype::ref_type())
    } else if str_eq(name, "HostnameDatatype") {
        Ok(HostnameDatatype::ref_type())
    } else if str_eq(name, "IPV4AddressDatatype") {
        Ok(IPV4AddressDatatype::ref_type())
    } else if str_eq(name, "IPV6AddressDatatype") {
        Ok(IPV6AddressDatatype::ref_type())
    } else if str_eq(name, "TokenDatatype") {
        Ok(TokenDatatype::ref_type())
    } else if str_eq(name, "URIDatatype") {
        Ok(URIDatatype::ref_type())
    } else if str_eq(name, "URIReferenceDatatype") {
        Ok(URIReferenceDatatype::ref_type())
    } else if str_eq(name, "UUIDDatatype") {
        Ok(UUIDDatatype::ref_type())
    } else {
        Err(Error::UnrecognizedTypeName(name.to_owned()))
    }
}

/// Registry symmetry: the two tables cover exactly the same names — every
/// declared datatype resolves in both, every other name in neither.
pub proof fn lemma_registry_symmetry(s: Seq<char>)
    ensures
        spec_base_type_of(s) is Some <==> spec_ref_type_of(s) is Some,
        spec_base_type_of(s) is Some <==> spec_registered(s),
{
}

/// Validation is idempotent and free of side effects: each datatype's
/// `validate` contract pins its outcome as a function of the input text
/// alone, so two calls on the same text — which cannot be mutated through
/// a shared reference — return the same result.
pub proof fn lemma_validation_deterministic(a: Seq<char>, b: Seq<char>)
    requires
        a == b,
    ensures
        crate::boolean::spec_json_bool_ok(a) == crate::boolean::spec_json_bool_ok(b),
        crate::nc_name::spec_valid_ncname(a) == crate::nc_name::spec_valid_ncname(b),
        crate::strings::spec_no_edge_whitespace(a) == crate::strings::spec_no_edge_whitespace(b),
        crate::strings::spec_is_ipv4(a) == crate::strings::spec_is_ipv4(b),
        crate::strings::ipv6_text_ok(a) == crate::strings::ipv6_text_ok(b),
        crate::dates::spec_naive_date_ok(a) == crate::dates::spec_naive_date_ok(b),
        crate::dates::spec_utc_datetime_ok(a) == crate::dates::spec_utc_datetime_ok(b),
        crate::dates::spec_naive_datetime_ok(a) == crate::dates::spec_naive_datetime_ok(b),
        crate::dates::spec_day_time_duration_ok(a) == crate::dates::spec_day_time_duration_ok(b),
        crate::dates::spec_year_month_duration_ok(a) == crate::dates::spec_year_month_duration_ok(
            b,
        ),
        crate::uris::spec_uri_parse(a) == crate::uris::spec_uri_parse(b),
        crate::uuid::spec_uuid_parse(a) == crate::uuid::spec_uuid_parse(b),
{
}

} // verus!

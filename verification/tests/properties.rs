//! Property coverage: round trips, idempotent validation, whitespace and
//! character-class rules, duration granularity, URI absoluteness, UUID
//! normalization, registry symmetry, and the format metadata.

use oscal_datatypes::boolean::BooleanDatatype;
use oscal_datatypes::dates::DateDatatype;
use oscal_datatypes::dates::DateTimeDatatype;
use oscal_datatypes::dates::DateTimeWithTimezoneDatatype;
use oscal_datatypes::dates::DayTimeDurationDatatype;
use oscal_datatypes::dates::YearMonthDurationDatatype;
use oscal_datatypes::error::Error;
use oscal_datatypes::get_base_type;
use oscal_datatypes::get_ref_type;
use oscal_datatypes::nc_name::NCName;
use oscal_datatypes::numbers::IntegerDatatype;
use oscal_datatypes::numbers::NonNegativeIntegerDatatype;
use oscal_datatypes::numbers::PositiveIntegerDatatype;
use oscal_datatypes::strings::Base64Datatype;
use oscal_datatypes::strings::EmailAddressDatatype;
use oscal_datatypes::strings::IPV4AddressDatatype;
use oscal_datatypes::strings::IPV6AddressDatatype;
use oscal_datatypes::strings::StringDatatype;
use oscal_datatypes::token::TokenDatatype;
use oscal_datatypes::uris::URIDatatype;
use oscal_datatypes::uris::URIReferenceDatatype;
use oscal_datatypes::uuid::UUIDDatatype;
use oscal_datatypes::validate::Validate;
use oscal_datatypes::Base;
use oscal_datatypes::Metaschema;
use oscal_datatypes::NumberType;
use oscal_datatypes::StringType;

#[test]
fn test_round_trip_each_family() {
    // Rendering an accepted value and reconstructing yields the same text.
    let s = StringDatatype::try_from("abc").unwrap();
    assert_eq!(StringDatatype::try_from(s.as_str()).unwrap().as_str(), "abc");

    let t = TokenDatatype::try_from("_abc").unwrap();
    assert_eq!(TokenDatatype::try_from(t.as_str()).unwrap().as_str(), "_abc");

    let d = DateDatatype::try_from("2024-02-10").unwrap();
    assert_eq!(DateDatatype::try_from(d.as_str()).unwrap().as_str(), "2024-02-10");

    let u = URIDatatype::try_from("https://fedramp.gov/ns/oscal").unwrap();
    assert_eq!(
        URIDatatype::try_from(u.as_str()).unwrap().as_str(),
        "https://fedramp.gov/ns/oscal"
    );

    let b = BooleanDatatype::from(true);
    assert!(BooleanDatatype::validate(&b.to_string()).is_ok());

    let n = IntegerDatatype::from(-42);
    assert_eq!(IntegerDatatype::try_from(&n.value()).unwrap().value(), -42);

    // The UUID round trip holds on the stored canonical form.
    let id = UUIDDatatype::new();
    assert_eq!(UUIDDatatype::try_from(id.as_str()).unwrap().as_str(), id.as_str());
}

#[test]
fn test_validate_idempotent() {
    // Two calls on the same input give the same outcome.
    assert_eq!(
        StringDatatype::validate(" abc").is_err(),
        StringDatatype::validate(" abc").is_err()
    );
    assert_eq!(
        BooleanDatatype::validate("true").is_ok(),
        BooleanDatatype::validate("true").is_ok()
    );
    assert_eq!(
        UUIDDatatype::validate("blah").is_err(),
        UUIDDatatype::validate("blah").is_err()
    );
    assert_eq!(
        DateDatatype::validate("2024-02-10").is_ok(),
        DateDatatype::validate("2024-02-10").is_ok()
    );
}

#[test]
fn test_whitespace_rejection() {
    assert!(StringDatatype::try_from("abc").is_ok());
    assert!(StringDatatype::try_from(" abc").is_err());
    assert!(StringDatatype::try_from("abc ").is_err());
    assert!(StringDatatype::try_from("a b c").is_ok());
    assert!(StringDatatype::try_from("").is_ok());
    assert!(StringDatatype::try_from("\tabc").is_err());
    assert!(matches!(
        StringDatatype::try_from(" x"),
        Err(Error::StringParse(m)) if m == "Trailing and leading whitespace is not allowed"
    ));

    // The whole Unicode white-space class counts, not just ASCII.
    assert!(StringDatatype::try_from("\u{3000}abc").is_err());
    assert!(StringDatatype::try_from("abc\u{A0}").is_err());
    assert!(StringDatatype::try_from("a\u{3000}c").is_ok());
}

#[test]
fn test_identifier_character_classes() {
    assert!(NCName::new_if_valid("abc").is_ok());
    assert!(NCName::new_if_valid("_abc").is_ok());
    assert!(NCName::new_if_valid("Abc").is_ok());
    assert!(matches!(
        NCName::new_if_valid(":abc"),
        Err(Error::NCNameIllegalFirstChar)
    ));
    assert!(matches!(
        NCName::new_if_valid("@abc"),
        Err(Error::NCNameIllegalFirstChar)
    ));
    assert!(matches!(NCName::new_if_valid("a:b"), Err(Error::NCNameIllegalChar)));

    // The token type inherits the rule unchanged.
    assert!(matches!(
        TokenDatatype::try_from(":abc"),
        Err(Error::NCNameIllegalFirstChar)
    ));
    assert!(matches!(TokenDatatype::try_from("a:b"), Err(Error::NCNameIllegalChar)));

    // The specified Unicode ranges are part of the start class, digits of
    // the later-character class, and an empty name has no character to
    // offend.
    assert!(NCName::new_if_valid("\u{C0}bc").is_ok());
    assert!(NCName::new_if_valid("a5").is_ok());
    assert!(NCName::new_if_valid("5a").is_err());
    assert!(NCName::new_if_valid("").is_ok());
    assert!(NCName::new_if_valid("a\u{B7}b").is_ok());
}

#[test]
fn test_identifier_char_predicates() {
    assert!(NCName::is_valid_start_char('a'));
    assert!(NCName::is_valid_start_char('_'));
    assert!(!NCName::is_valid_start_char('5'));
    assert!(!NCName::is_valid_start_char(':'));
    assert!(NCName::is_valid_char('5'));
    assert!(NCName::is_valid_char('-'));
    assert!(NCName::is_valid_char('.'));
    assert!(!NCName::is_valid_char(':'));
    assert!(!NCName::is_valid_char('@'));
}

#[test]
fn test_duration_granularity() {
    assert!(DayTimeDurationDatatype::try_from("P4DT23H10S").is_ok());
    assert!(matches!(
        YearMonthDurationDatatype::try_from("P2Y3M4D"),
        Err(Error::DurationParse)
    ));
    assert!(YearMonthDurationDatatype::try_from("P2Y3M").is_ok());

    // Each granularity rejects the other's components.
    assert!(DayTimeDurationDatatype::try_from("P2Y3M").is_err());
    assert!(YearMonthDurationDatatype::try_from("PT5S").is_err());
    assert!(DayTimeDurationDatatype::try_from("PT5S").is_ok());

    // Unparseable durations fail with the same kind.
    assert!(matches!(
        DayTimeDurationDatatype::try_from("blah"),
        Err(Error::DurationParse)
    ));
    assert!(matches!(YearMonthDurationDatatype::try_from("P"), Err(Error::DurationParse)));
}

#[test]
fn test_uuid_round_trip() {
    let fresh = UUIDDatatype::new();
    assert!(UUIDDatatype::validate(fresh.as_str()).is_ok());

    assert!(matches!(UUIDDatatype::try_from("blah"), Err(Error::UuidParse)));

    // Construction stores the parser's normalized rendering.
    let mixed = "A78F7E4C-A27A-4B1E-901B-EBFECF2B0301";
    let normalized = UUIDDatatype::try_from(mixed).unwrap();
    assert_eq!(normalized.as_str(), "a78f7e4c-a27a-4b1e-901b-ebfecf2b0301");
    assert_eq!(normalized.to_string(), "a78f7e4c-a27a-4b1e-901b-ebfecf2b0301");
}

#[test]
fn test_absolute_vs_relative_uri() {
    let absolute = "https://fedramp.gov/ns/oscal";
    assert!(URIDatatype::try_from(absolute).is_ok());
    assert!(URIReferenceDatatype::try_from(absolute).is_ok());

    let fragment = "#a78f7e4c-a27a-4b1e-901b-ebfecf2b0301";
    assert!(matches!(URIDatatype::try_from(fragment), Err(Error::UriAbsolute)));
    assert!(URIReferenceDatatype::try_from(fragment).is_ok());

    // A text that is no URI reference at all fails both, as a parse error.
    assert!(matches!(URIDatatype::try_from("a b"), Err(Error::UriParse)));
    assert!(matches!(URIReferenceDatatype::try_from("a b"), Err(Error::UriParse)));
}

#[test]
fn test_registry_symmetry() {
    let declared = [
        "BooleanDatatype",
        "DateDatatype",
        "DateTimeDatatype",
        "DateTimeWithTimezoneDatatype",
        "DayTimeDurationDatatype",
        "YearMonthDurationDatatype",
        "DecimalDatatype",
        "IntegerDatatype",
        "NonNegativeIntegerDatatype",
        "PositiveIntegerDatatype",
        "StringDatatype",
        "Base64Datatype",
        "EmailAddressDatatype",
        "HostnameDatatype",
        "IPV4AddressDatatype",
        "IPV6AddressDatatype",
        "TokenDatatype",
        "URIDatatype",
        "URIReferenceDatatype",
        "UUIDDatatype",
    ];
    for name in declared {
        assert!(get_base_type(name).is_ok());
        assert!(get_ref_type(name).is_ok());
    }
    assert!(matches!(
        get_base_type("FooDatatype"),
        Err(Error::UnrecognizedTypeName(n)) if n == "FooDatatype"
    ));
    assert!(matches!(
        get_ref_type("FooDatatype"),
        Err(Error::UnrecognizedTypeName(n)) if n == "FooDatatype"
    ));
}

#[test]
fn test_registry_values() {
    assert_eq!(get_base_type("BooleanDatatype").unwrap(), "bool");
    assert_eq!(get_ref_type("BooleanDatatype").unwrap(), "bool");
    assert_eq!(get_base_type("IntegerDatatype").unwrap(), "i64");
    assert_eq!(get_ref_type("IntegerDatatype").unwrap(), "&i64");
    assert_eq!(get_base_type("NonNegativeIntegerDatatype").unwrap(), "u64");
    assert_eq!(get_ref_type("PositiveIntegerDatatype").unwrap(), "&u64");
    assert_eq!(get_base_type("DecimalDatatype").unwrap(), "f64");
    assert_eq!(get_ref_type("DecimalDatatype").unwrap(), "&f64");
    assert_eq!(get_base_type("StringDatatype").unwrap(), "String");
    assert_eq!(get_ref_type("StringDatatype").unwrap(), "str");
    assert_eq!(get_base_type("YearMonthDurationDatatype").unwrap(), "String");
    assert_eq!(get_ref_type("YearMonthDurationDatatype").unwrap(), "str");
    assert_eq!(get_base_type("HostnameDatatype").unwrap(), "String");
    assert_eq!(get_ref_type("IPV4AddressDatatype").unwrap(), "str");
    assert_eq!(get_base_type("IPV6AddressDatatype").unwrap(), "String");
    assert_eq!(get_base_type("UUIDDatatype").unwrap(), "String");
    assert_eq!(get_ref_type("UUIDDatatype").unwrap(), "str");
}

#[test]
fn test_boolean_json_forms() {
    // The JSON reader accepts surrounding white space and nothing else.
    assert!(BooleanDatatype::validate(" true ").is_ok());
    assert!(BooleanDatatype::validate("\tfalse\n").is_ok());
    assert!(BooleanDatatype::validate("True").is_err());
    assert!(BooleanDatatype::validate("tru").is_err());
    assert!(BooleanDatatype::validate("").is_err());
    assert!(matches!(BooleanDatatype::validate("1"), Err(Error::BooleanParse)));

    assert_eq!(BooleanDatatype::from(false).to_string(), "false");
    assert!(!BooleanDatatype::try_from(&false).unwrap().value());
}

#[test]
fn test_ipv4_literals() {
    assert!(IPV4AddressDatatype::try_from("192.168.0.1").is_ok());
    assert!(IPV4AddressDatatype::try_from("0.0.0.0").is_ok());
    assert!(IPV4AddressDatatype::try_from("255.255.255.255").is_ok());
    assert!(matches!(
        IPV4AddressDatatype::try_from("256.0.0.1"),
        Err(Error::AddressParse)
    ));
    assert!(IPV4AddressDatatype::try_from("01.2.3.4").is_err());
    assert!(IPV4AddressDatatype::try_from("1.2.3").is_err());
    assert!(IPV4AddressDatatype::try_from("1.2.3.4.5").is_err());
    assert!(IPV4AddressDatatype::try_from("1..2.3").is_err());
    assert!(IPV4AddressDatatype::try_from("").is_err());
    assert!(IPV4AddressDatatype::try_from("1.2.3.x").is_err());
    let v = IPV4AddressDatatype::try_from("10.0.0.7").unwrap();
    assert_eq!(v.as_str(), "10.0.0.7");
}

#[test]
fn test_ipv6_literals() {
    assert!(IPV6AddressDatatype::try_from("::1").is_ok());
    assert!(IPV6AddressDatatype::try_from("2001:db8::1").is_ok());
    assert!(matches!(
        IPV6AddressDatatype::try_from("192.168.0.1"),
        Err(Error::AddressParse)
    ));
    assert!(IPV6AddressDatatype::try_from("blah").is_err());
    let v = IPV6AddressDatatype::try_from("::1").unwrap();
    assert_eq!(v.as_str(), "::1");
}

#[test]
fn test_date_strictness() {
    assert!(DateDatatype::try_from("2024-02-29").is_ok());
    assert!(matches!(DateDatatype::try_from("2024-02-30"), Err(Error::DateParse)));
    assert!(DateDatatype::try_from("2024-13-01").is_err());

    // Strictness is an explicit, observable parameter.
    assert!(DateDatatype::validate_with("not a date", false).is_ok());
    assert!(DateDatatype::validate_with("not a date", true).is_err());
    assert!(DateTimeDatatype::validate_with("not a time", false).is_ok());
    assert!(DateTimeDatatype::validate_with("not a time", true).is_err());
}

#[test]
fn test_date_generators() {
    let today = DateDatatype::new();
    assert!(DateDatatype::validate(today.as_str()).is_ok());
    assert!(today.date_naive().is_ok());

    let now = DateTimeDatatype::new();
    assert!(DateTimeDatatype::validate(now.as_str()).is_ok());

    let now_tz = DateTimeWithTimezoneDatatype::new();
    assert!(DateTimeWithTimezoneDatatype::validate(now_tz.as_str()).is_ok());
}

#[test]
fn test_date_naive_value() {
    let date = DateDatatype::try_from("2024-02-10").unwrap();
    let parsed = date.date_naive().unwrap();
    assert_eq!(parsed, chrono::NaiveDate::from_ymd_opt(2024, 2, 10).unwrap());
}

#[test]
fn test_to_rfc2822() {
    let date = DateTimeDatatype::try_from("2024-04-13T09:57:13+05:00").unwrap();
    assert_eq!(date.to_rfc2822(), "Sat, 13 Apr 2024 09:57:13 +0500");

    // A timezone-free timestamp is valid for this type but has no
    // RFC 3339 form, so the rendering is empty.
    let naive = DateTimeDatatype::try_from("2024-04-13T09:57:13").unwrap();
    assert_eq!(naive.to_rfc2822(), "");
}

#[test]
fn test_permissive_types_accept_anything() {
    assert!(Base64Datatype::validate("not base64 at all!").is_ok());
    assert!(EmailAddressDatatype::validate("no at sign").is_ok());
    let b = Base64Datatype::try_from("SGVsbG8=").unwrap();
    assert_eq!(b.as_str(), "SGVsbG8=");
}

#[test]
fn test_numeric_values() {
    assert_eq!(IntegerDatatype::from(i64::MIN).value(), i64::MIN);
    assert_eq!(NonNegativeIntegerDatatype::from(0).value(), 0);
    assert_eq!(PositiveIntegerDatatype::try_from(&7u64).unwrap().value(), 7);
    // The declared minimum is advisory: the storage kind alone constrains.
    assert_eq!(PositiveIntegerDatatype::from(0).value(), 0);
}

#[test]
fn test_format_metadata() {
    assert_eq!(BooleanDatatype::_type(), Some("boolean"));
    assert_eq!(
        BooleanDatatype::description(),
        Some("A binary value that is either: true or false.")
    );
    assert_eq!(StringDatatype::_type(), Some("string"));
    assert_eq!(StringDatatype::pattern(), Some("^\\S(.*\\S)?$"));
    assert_eq!(StringDatatype::content_encoding(), Some("string"));
    assert_eq!(StringDatatype::format(), None);
    assert_eq!(Base64Datatype::content_encoding(), Some("base64"));
    assert_eq!(IPV4AddressDatatype::format(), Some("ipv4"));
    assert_eq!(IPV6AddressDatatype::format(), Some("ipv6"));
    assert_eq!(DayTimeDurationDatatype::format(), Some("duration"));
    assert_eq!(YearMonthDurationDatatype::format(), Some("duration"));
    assert_eq!(EmailAddressDatatype::pattern(), Some("^.+@.+$"));

    assert_eq!(IntegerDatatype::minimum(), None);
    assert_eq!(IntegerDatatype::maximum(), None);
    assert_eq!(NonNegativeIntegerDatatype::minimum(), Some(0));
    assert_eq!(PositiveIntegerDatatype::minimum(), Some(1));

    assert_eq!(BooleanDatatype::base_type(), "bool");
    assert_eq!(IntegerDatatype::ref_type(), "&i64");
    assert_eq!(TokenDatatype::base_type(), "String");
    assert_eq!(NCName::ref_type(), "str");
}

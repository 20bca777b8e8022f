//! The datatype test suite: construction, validation and round-trip
//! behaviour of each datatype on its reference inputs.

use oscal_datatypes::boolean::BooleanDatatype;
use oscal_datatypes::dates::DateDatatype;
use oscal_datatypes::dates::DateTimeDatatype;
use oscal_datatypes::dates::DateTimeWithTimezoneDatatype;
use oscal_datatypes::dates::DayTimeDurationDatatype;
use oscal_datatypes::dates::YearMonthDurationDatatype;
use oscal_datatypes::nc_name::NCName;
use oscal_datatypes::strings::StringDatatype;
use oscal_datatypes::token::TokenDatatype;
use oscal_datatypes::uris::URIDatatype;
use oscal_datatypes::uris::URIReferenceDatatype;
use oscal_datatypes::uuid::UUIDDatatype;
use oscal_datatypes::validate::Validate;

fn to_json(value: &str) -> String {
    serde_json::to_string(value).expect("oops")
}

#[test]
fn test_de_se_boolean_datatype() {
    let test_value = "true";

    let decoded = serde_json::from_str::<bool>(test_value).expect("Failed to deserialize");
    let result = BooleanDatatype::from(decoded);
    assert_eq!(result.to_string(), test_value);

    let json = serde_json::to_string(&result.value()).expect("failed to serialize");
    assert_eq!(json, test_value);
}

#[test]
fn test_validate_json() {
    assert!(BooleanDatatype::validate("true").is_ok());
    assert!(BooleanDatatype::validate("false").is_ok());
    assert!(BooleanDatatype::validate("1").is_err());
}

#[test]
fn test_de_se_day_time_duration_datatype() {
    let test_value = "P4DT23H10S";
    let json_test_value = to_json(test_value);

    let decoded = serde_json::from_str::<String>(&json_test_value).expect("Failed to deserialize");
    let date = DayTimeDurationDatatype::try_from(decoded.as_str()).expect("Failed to deserialize");
    assert_eq!(date.as_str(), test_value);

    let json = serde_json::to_string(&date.as_str()).expect("failed to serialize");
    assert_eq!(json, json_test_value);
}

#[test]
fn test_bad_day_time_duration_datatype() {
    let test_value = "P2Y3M4D";
    assert!(YearMonthDurationDatatype::try_from(test_value).is_err());
}

#[test]
fn test_de_se_year_month_duration_datatype() {
    let test_value = "P2Y3M";
    let json_test_value = to_json(test_value);

    let decoded = serde_json::from_str::<String>(&json_test_value).expect("Failed to deserialize");
    let date = YearMonthDurationDatatype::try_from(decoded.as_str()).expect(
        "Failed to deserialize",
    );
    assert_eq!(date.as_str(), test_value);

    let json = serde_json::to_string(&date.as_str()).expect("failed to serialize");
    assert_eq!(json, json_test_value);
}

#[test]
fn test_bad_month_duration_datatype() {
    let test_value = "P2Y3M4D";
    assert!(YearMonthDurationDatatype::try_from(test_value).is_err());
}

#[test]
fn test_de_se_date_datatype() {
    let test_value = "2024-02-10";
    let json_test_value = to_json(test_value);

    let decoded = serde_json::from_str::<String>(&json_test_value).expect("Failed to deserialize");
    let date = DateDatatype::try_from(decoded.as_str()).expect("Failed to deserialize");
    assert_eq!(date.as_str(), test_value);

    let json = serde_json::to_string(&date.as_str()).expect("failed to serialize");
    assert_eq!(json, json_test_value);
}

#[test]
fn test_de_se_naive_datetime_datatype() {
    let test_value = "2024-04-13T09:57:13";
    let json_test_value = to_json(test_value);

    let decoded = serde_json::from_str::<String>(&json_test_value).expect("Failed to deserialize");
    let date = DateTimeDatatype::try_from(decoded.as_str()).expect("Failed to deserialize");
    assert_eq!(date.as_str(), test_value);

    let json = serde_json::to_string(&date.as_str()).expect("failed to serialize");
    assert_eq!(json, json_test_value);
}

#[test]
fn test_de_se_with_tz_datetime_datatype() {
    let test_value = "2024-04-13T09:57:13Z";
    let json_test_value = to_json(test_value);

    let decoded = serde_json::from_str::<String>(&json_test_value).expect("Failed to deserialize");
    let date = DateTimeDatatype::try_from(decoded.as_str()).expect("Failed to deserialize");
    assert_eq!(date.as_str(), test_value);

    let json = serde_json::to_string(&date.as_str()).expect("failed to serialize");
    assert_eq!(json, json_test_value);
}

#[test]
fn test_de_se_tz_offset_datetime_datatype() {
    let test_value = "2024-04-13T09:57:13+05:00";
    let json_test_value = to_json(test_value);

    let decoded = serde_json::from_str::<String>(&json_test_value).expect("Failed to deserialize");
    let date = DateTimeDatatype::try_from(decoded.as_str()).expect("Failed to deserialize");
    assert_eq!(date.as_str(), test_value);

    let json = serde_json::to_string(&date.as_str()).expect("failed to serialize");
    assert_eq!(json, json_test_value);
}

#[test]
fn test_de_se_tz_offset_datetime_with_timezone_datatype() {
    let test_value = "2024-04-13T09:57:13+05:00";
    let json_test_value = to_json(test_value);

    let decoded = serde_json::from_str::<String>(&json_test_value).expect("Failed to deserialize");
    let date = DateTimeWithTimezoneDatatype::try_from(decoded.as_str()).expect(
        "Failed to deserialize",
    );
    assert_eq!(date.as_str(), test_value);

    let json = serde_json::to_string(&date.as_str()).expect("failed to serialize");
    assert_eq!(json, json_test_value);
}

#[test]
fn test_de_se_no_offset_datetime_with_timezone_datatype() {
    let test_value = "2024-04-13T09:57:13";

    assert!(DateTimeWithTimezoneDatatype::try_from(test_value).is_err());
}

#[test]
fn test_valid_first() {
    assert!("abc".parse::<NCName>().is_ok());
    assert!("_abc".parse::<NCName>().is_ok());
    assert!("Abc".parse::<NCName>().is_ok());
}

#[test]
fn nc_name_test_deserialize() {
    // Good names
    let good = serde_json::from_str::<String>(r#""abc""#).expect("fail");
    assert!(NCName::new_if_valid(good.as_str()).is_ok());
    let good = serde_json::from_str::<String>(r#""_abc""#).expect("fail");
    assert!(NCName::new_if_valid(good.as_str()).is_ok());
    let good = serde_json::from_str::<String>(r#""abc-def""#).expect("fail");
    assert!(NCName::new_if_valid(good.as_str()).is_ok());

    // Bad names
    let bad = serde_json::from_str::<String>(r#"":abc""#).expect("fail");
    assert!(NCName::new_if_valid(bad.as_str()).is_err());
    let bad = serde_json::from_str::<String>(r#""@abc""#).expect("fail");
    assert!(NCName::new_if_valid(bad.as_str()).is_err());
}

#[test]
fn test_serialize() {
    let name = "abc".parse::<NCName>().expect("fail");
    let json = serde_json::to_string(name.as_str()).expect("fail");
    assert_eq!(&json, r#""abc""#)
}

#[test]
fn test_de_se_string_data_type_in_struct() {
    let value = "abc";
    let sdt = StringDatatype::try_from(value).unwrap();
    let mut object = serde_json::Map::new();
    object.insert(
        "sdt".to_string(),
        serde_json::Value::String(sdt.as_str().to_string()),
    );
    let result = serde_json::to_string(&serde_json::Value::Object(object));
    assert!(result.is_ok());
    let json = result.unwrap();
    assert_eq!(json, format!(r#"{{"sdt":"{}"}}"#, value));

    let result = serde_json::from_str::<serde_json::Value>(&json);
    assert!(result.is_ok());
    let field = result.unwrap()["sdt"].as_str().map(StringDatatype::try_from);
    assert_eq!(field.unwrap().unwrap().as_str(), sdt.as_str());
}

#[test]
fn test_string_data_type_from_string() {
    let test = "abc";
    let json_test = format!("\"{}\"", test);

    let sdt = StringDatatype::try_from(test).expect("StringDatatype::try_from");

    let result = serde_json::to_string(&sdt.as_str());
    assert!(result.is_ok());
    let json = result.unwrap();
    assert_eq!(json, json_test);

    let result = serde_json::from_str::<String>(&json);
    assert!(result.is_ok());
    let back = StringDatatype::try_from(result.unwrap().as_str()).expect(
        "StringDatatype::try_from",
    );
    assert_eq!(back.as_str(), sdt.as_str());
}

#[test]
fn test_deref() {
    let show = |s: &str| s.to_string();

    let sdt = StringDatatype::try_from("abc").expect("fail");
    // StringDatatype can be passed as &str
    assert_eq!(show(sdt.as_str()), "abc");

    // StringDatatype exposes its text as &str
    assert_eq!(sdt.as_str(), "abc");
}

#[test]
fn test_de_se_token_datatype() {
    let decoded = serde_json::from_str::<String>(r#""_abc""#).expect("fail");
    assert!(TokenDatatype::try_from(decoded.as_str()).is_ok());
}

#[test]
fn token_test_deserialize() {
    let decoded = serde_json::from_str::<String>(r#""_abc""#).expect("fail");
    assert!(TokenDatatype::try_from(decoded.as_str()).is_ok());
}

#[test]
fn test_valid_uri() {
    let good_uri = "https://fedramp.gov/ns/oscal";
    assert!(good_uri.parse::<URIDatatype>().is_ok());

    let bad_uri = "#a78f7e4c-a27a-4b1e-901b-ebfecf2b0301";
    assert!(bad_uri.parse::<URIDatatype>().is_err());
}

#[test]
fn test_valid_uri_reference() {
    let good_uri = "https://fedramp.gov/ns/oscal";
    assert!(good_uri.parse::<URIReferenceDatatype>().is_ok());

    let bad_uri = "#a78f7e4c-a27a-4b1e-901b-ebfecf2b0301";
    assert!(bad_uri.parse::<URIReferenceDatatype>().is_ok());
}

#[test]
fn test_validate_uuid() {
    let input = "blah";
    assert!(UUIDDatatype::validate(input).is_err());

    let input = UUIDDatatype::new();
    assert!(UUIDDatatype::validate(&input.to_string()).is_ok());
}

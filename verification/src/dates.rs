//! The temporal datatype family: calendar date, date-time with optional
//! timezone, date-time with mandatory timezone, and the two duration
//! granularities (day-time and year-month).
//!
//! Dates and date-times normally validate strictly against the calendar
//! parser; the strictness is an explicit runtime parameter of
//! `validate_with`, so the permissive mode is observable and testable
//! rather than a build-time fork.  The timezone-mandatory type and the
//! durations are always strict.

use vstd::prelude::*;

use crate::error::Error;
use crate::validate::Validate;
use crate::{Base, Metaschema, StringType};

verus! {

/// The human description of [`DateDatatype`], published as schema
/// metadata.
pub const DATE_DESCRIPTION: &'static str = "A string representing a 24-hour period with an optional timezone.";

/// The human description of [`DateTimeDatatype`], published as schema
/// metadata.
pub const DATE_TIME_DESCRIPTION: &'static str = "A string representing a point in time with an optional timezone.";

/// The human description of [`DateTimeWithTimezoneDatatype`], published as schema
/// metadata.
pub const DATE_TIME_WITH_TIMEZONE_DESCRIPTION: &'static str = "A string representing a 24-hour period with a required timezone.";

/// The human description of [`DayTimeDurationDatatype`], published as schema
/// metadata.
pub const DAY_TIME_DURATION_DESCRIPTION: &'static str = "An amount of time quantified in days, hours, minutes, and seconds.";

/// The human description of [`YearMonthDurationDatatype`], published as schema
/// metadata.
pub const YEAR_MONTH_DURATION_DESCRIPTION: &'static str = "An amount of time quantified in years and months based on ISO-8601 durations (see also RFC3339 appendix A).";

/// Whether a text parses as a timezone-free calendar date; named after the
/// calendar parser, which decides it from the characters alone.
pub uninterp spec fn spec_naive_date_ok(s: Seq<char>) -> bool;

/// Whether a text parses as a timezone-aware timestamp; named after the
/// calendar parser, which decides it from the characters alone.
pub uninterp spec fn spec_utc_datetime_ok(s: Seq<char>) -> bool;

/// Whether a text parses as a timezone-free timestamp; named after the
/// calendar parser, which decides it from the characters alone.
pub uninterp spec fn spec_naive_datetime_ok(s: Seq<char>) -> bool;

/// The RFC 2822 rendering of a text that parses as an RFC 3339 timestamp,
/// or nothing when it does not; named after the calendar parser and its
/// renderer, which decide it from the characters alone.
pub uninterp spec fn spec_rfc2822_render(s: Seq<char>) -> Option<Seq<char>>;

/// What the duration parser makes of a text: `None` when it does not
/// parse, otherwise two flags saying whether a year or month component is
/// present and whether a day, hour, minute or second component is present.
/// Named after the duration parser, which decides it from the characters
/// alone.
pub uninterp spec fn spec_duration_parse(s: Seq<char>) -> Option<(bool, bool)>;

/// The declarative date pattern, published as schema metadata.
pub const DATE_PATTERN: &'static str = "^(((2000|2400|2800|(19|2[0-9](0[48]|[2468][048]|[13579][26])))-02-29)|(((19|2[0-9])[0-9]{2})-02-(0[1-9]|1[0-9]|2[0-8]))|(((19|2[0-9])[0-9]{2})-(0[13578]|10|12)-(0[1-9]|[12][0-9]|3[01]))|(((19|2[0-9])[0-9]{2})-(0[469]|11)-(0[1-9]|[12][0-9]|30)))(Z|(-((0[0-9]|1[0-2]):00|0[39]:30)|\\+((0[0-9]|1[0-4]):00|(0[34569]|10):30|(0[58]|12):45)))?$";

/// The declarative date-time pattern, published as schema metadata.
pub const DATE_TIME_PATTERN: &'static str = "^(((2000|2400|2800|(19|2[0-9](0[48]|[2468][048]|[13579][26])))-02-29)|(((19|2[0-9])[0-9]{{2}})-02-(0[1-9]|1[0-9]|2[0-8]))|(((19|2[0-9])[0-9]{{2}})-(0[13578]|10|12)-(0[1-9]|[12][0-9]|3[01]))|(((19|2[0-9])[0-9]{{2}})-(0[469]|11)-(0[1-9]|[12][0-9]|30)))T(2[0-3]|[01][0-9]):([0-5][0-9]):([0-5][0-9])(\\.[0-9]+)?(Z|(-((0[0-9]|1[0-2]):00|0[39]:30)|\\+((0[0-9]|1[0-4]):00|(0[34569]|10):30|(0[58]|12):45)))?$";

/// The declarative pattern of the timezone-mandatory date-time, published
/// as schema metadata.
pub const DATE_TIME_WITH_TIMEZONE_PATTERN: &'static str = "^(((2000|2400|2800|(19|2[0-9](0[48]|[2468][048]|[13579][26])))-02-29)|(((19|2[0-9])[0-9]{{2}})-02-(0[1-9]|1[0-9]|2[0-8]))|(((19|2[0-9])[0-9]{{2}})-(0[13578]|10|12)-(0[1-9]|[12][0-9]|3[01]))|(((19|2[0-9])[0-9]{{2}})-(0[469]|11)-(0[1-9]|[12][0-9]|30)))(Z|(-((0[0-9]|1[0-2]):00|0[39]:30)|\\+((0[0-9]|1[0-4]):00|(0[34569]|10):30|(0[58]|12):45)))$";

/// The declarative day-time duration pattern, published as schema
/// metadata.
pub const DAY_TIME_DURATION_PATTERN: &'static str = "^-?P([0-9]+D(T(([0-9]+H([0-9]+M)?(([0-9]+|[0-9]+(\\.[0-9]+)?)S)?)|([0-9]+M(([0-9]+|[0-9]+(\\.[0-9]+)?)S)?)|([0-9]+|[0-9]+(\\.[0-9]+)?)S))?)|T(([0-9]+H([0-9]+M)?(([0-9]+|[0-9]+(\\.[0-9]+)?)S)?)|([0-9]+M(([0-9]+|[0-9]+(\\.[0-9]+)?)S)?)|([0-9]+|[0-9]+(\\.[0-9]+)?)S)$";

/// The declarative year-month duration pattern, published as schema
/// metadata.
pub const YEAR_MONTH_DURATION_PATTERN: &'static str = "^-?P([0-9]+Y([0-9]+M)?)|[0-9]+M$";

#[verifier::external_type_specification]
#[verifier::external_body]
pub struct ExNaiveDate(chrono::NaiveDate);

/// Relies on `chrono::NaiveDate`'s `FromStr` implementation: whether a
/// text is a calendar date depends on its characters alone.
#[verifier::external_body]
fn parse_naive_date(value: &str) -> (r: Option<chrono::NaiveDate>)
    ensures
        r is Some <==> spec_naive_date_ok(value@),
{
    value.parse::<chrono::NaiveDate>().ok()
}

/// Relies on `chrono::DateTime::<Utc>`'s `FromStr` implementation:
/// whether a text is a timezone-aware timestamp depends on its characters
/// alone.
#[verifier::external_body]
fn check_utc_datetime(value: &str) -> (r: bool)
    ensures
        r == spec_utc_datetime_ok(value@),
{
    value.parse::<chrono::DateTime<chrono::Utc>>().is_ok()
}

/// Relies on `chrono::NaiveDateTime`'s `FromStr` implementation: whether
/// a text is a timezone-free timestamp depends on its characters alone.
#[verifier::external_body]
fn check_naive_datetime(value: &str) -> (r: bool)
    ensures
        r == spec_naive_datetime_ok(value@),
{
    value.parse::<chrono::NaiveDateTime>().is_ok()
}

/// Relies on `chrono::Local::now` and the ISO 8601 rendering of
/// `NaiveDate`: whatever instant the clock reports, the rendering of its
/// date parses back as a calendar date.
#[verifier::external_body]
fn today_text() -> (r: String)
    ensures
        spec_naive_date_ok(r@),
{
    chrono::Local::now().date_naive().to_string()
}

/// Relies on `chrono::Local::now` and `NaiveDateTime`'s `format`:
/// whatever instant the clock reports, its second-precision rendering
/// parses back as a timezone-free timestamp.
#[verifier::external_body]
fn now_naive_text() -> (r: String)
    ensures
        spec_naive_datetime_ok(r@),
{
    chrono::Local::now().naive_local().format("%Y-%m-%dT%H:%M:%S").to_string()
}

/// Relies on `chrono::Utc::now` and `DateTime::to_rfc3339`: whatever
/// instant the clock reports, its RFC 3339 rendering parses back as a
/// timezone-aware timestamp.
#[verifier::external_body]
fn now_utc_text() -> (r: String)
    ensures
        spec_utc_datetime_ok(r@),
{
    chrono::Utc::now().to_rfc3339()
}

/// Relies on `chrono::DateTime::parse_from_rfc3339` and `to_rfc2822`:
/// both depend on the characters of the input alone.
#[verifier::external_body]
fn rfc2822_render(value: &str) -> (r: Option<String>)
    ensures
        r is Some <==> spec_rfc2822_render(value@) is Some,
        r matches Some(t) ==> spec_rfc2822_render(value@) == Some(t@),
{
    match chrono::DateTime::parse_from_rfc3339(value) {
        Ok(dt) => Some(dt.to_rfc2822()),
        Err(_) => None,
    }
}

/// Relies on `iso8601_duration::Duration::parse` and `Duration::num_days`:
/// the parse is a function of the characters alone.  The first flag uses
/// the crate's own `num_days` test for a positive year or month
/// component; the second reports a non-zero day, hour, minute or second
/// component, read from each field's bit pattern (sign apart) because the
/// fields are floats.
#[verifier::external_body]
fn duration_components(value: &str) -> (r: Option<(bool, bool)>)
    ensures
        r == spec_duration_parse(value@),
{
    match value.parse::<iso8601_duration::Duration>() {
        Ok(d) => {
            let mag: u32 = 0x7FFF_FFFF;
            let day_time = d.day.to_bits() & mag != 0 || d.hour.to_bits() & mag != 0
                || d.minute.to_bits() & mag != 0 || d.second.to_bits() & mag != 0;
            Some((d.num_days().is_none(), day_time))
        },
        Err(_) => None,
    }
}

/// A string representing a 24-hour period: a timezone-free calendar date.
#[derive(Debug, Clone)]
pub struct DateDatatype(String);

impl View for DateDatatype {
    type V = Seq<char>;

    closed spec fn view(&self) -> Seq<char> {
        self.0@
    }
}

impl DateDatatype {
    /// The well-formedness invariant: the wrapped text is a calendar
    /// date.  Both constructors are strict, so every live instance
    /// satisfies it; the permissive mode of `validate_with` is a
    /// validation query only, never a construction path.
    pub open spec fn wf(&self) -> bool {
        spec_naive_date_ok(self@)
    }

    /// Validate `value` with an explicit strictness: strict validation
    /// asks the calendar parser, permissive validation accepts every
    /// text, for callers whose documents only declare the constraint.
    pub fn validate_with(value: &str, strict: bool) -> (r: Result<(), Error>)
        ensures
            strict ==> (r is Ok <==> spec_naive_date_ok(value@)),
            !strict ==> r is Ok,
            r is Err ==> r == Err::<(), Error>(Error::DateParse),
    {
        if !strict {
            return Ok(());
        }
        match parse_naive_date(value) {
            Some(_) => Ok(()),
            None => Err(Error::DateParse),
        }
    }

    /// Validate `value` strictly and wrap it unchanged on success.
    pub fn try_from(value: &str) -> (r: Result<Self, Error>)
        ensures
            r is Ok <==> spec_naive_date_ok(value@),
            r matches Ok(v) ==> v@ == value@ && v.wf(),
            r is Err ==> r == Err::<Self, Error>(Error::DateParse),
    {
        match Self::validate(value) {
            Ok(()) => Ok(DateDatatype(value.to_owned())),
            Err(e) => Err(e),
        }
    }

    /// Create a new date from the current local date.  The result does
    /// not go through validation, but its text would be accepted if fed
    /// back in.
    pub fn new() -> (r: Self)
        ensures
            r.wf(),
    {
        DateDatatype(today_text())
    }

    /// The wrapped text as a calendar date, if it is one.
    pub fn date_naive(&self) -> (r: Result<chrono::NaiveDate, Error>)
        ensures
            r is Ok <==> spec_naive_date_ok(self@),
            r is Err ==> r == Err::<chrono::NaiveDate, Error>(Error::DateParse),
    {
        match parse_naive_date(self.0.as_str()) {
            Some(d) => Ok(d),
            None => Err(Error::DateParse),
        }
    }

    /// The wrapped text.
    pub fn as_str(&self) -> (r: &str)
        ensures
            r@ == self@,
    {
        self.0.as_str()
    }
}

impl Default for DateDatatype {
    fn default() -> (r: Self)
        ensures
            spec_naive_date_ok(r@),
    {
        Self::new()
    }
}

impl Validate for DateDatatype {
    fn validate(value: &str) -> (r: Result<(), Error>)
        ensures
            r is Ok <==> spec_naive_date_ok(value@),
            r is Err ==> r == Err::<(), Error>(Error::DateParse),
    {
        Self::validate_with(value, true)
    }
}

impl Metaschema for DateDatatype {
    fn _type() -> (r: Option<&'static str>)
        ensures
            r matches Some(t) && t@ == "string"@,
    {
        Some("string")
    }

    fn description() -> (r: Option<&'static str>)
        ensures
            r matches Some(d) && d@ == DATE_DESCRIPTION@,
    {
        Some(DATE_DESCRIPTION)
    }
}

impl StringType for DateDatatype {
    fn format() -> (r: Option<&'static str>)
        ensures
            r is None,
    {
        None
    }

    fn pattern() -> (r: Option<&'static str>)
        ensures
            r matches Some(p) && p@ == DATE_PATTERN@,
    {
        Some(DATE_PATTERN)
    }

    fn content_encoding() -> (r: Option<&'static str>)
        ensures
            r is None,
    {
        None
    }
}

impl Base for DateDatatype {
    fn base_type() -> (r: String)
        ensures
            r@ == "String"@,
    {
        "String".to_owned()
    }

    fn ref_type() -> (r: String)
        ensures
            r@ == "str"@,
    {
        "str".to_owned()
    }
}

/// A string representing a point in time: a timestamp with a timezone, or
/// — as a fallback accepted by this type only — without one.
#[derive(Debug, Clone)]
pub struct DateTimeDatatype(String);

impl View for DateTimeDatatype {
    type V = Seq<char>;

    closed spec fn view(&self) -> Seq<char> {
        self.0@
    }
}

impl DateTimeDatatype {
    /// The well-formedness invariant: the wrapped text is a timestamp,
    /// with or without a timezone.  Both constructors are strict, so
    /// every live instance satisfies it; the permissive mode of
    /// `validate_with` is a validation query only, never a construction
    /// path.
    pub open spec fn wf(&self) -> bool {
        spec_utc_datetime_ok(self@) || spec_naive_datetime_ok(self@)
    }

    /// Validate `value` with an explicit strictness: strict validation
    /// tries the timezone-aware parse first and falls back to the
    /// timezone-free one; permissive validation accepts every text.
    pub fn validate_with(value: &str, strict: bool) -> (r: Result<(), Error>)
        ensures
            strict ==> (r is Ok <==> (spec_utc_datetime_ok(value@) || spec_naive_datetime_ok(
                value@,
            ))),
            !strict ==> r is Ok,
            r is Err ==> r == Err::<(), Error>(Error::DateParse),
    {
        if !strict {
            return Ok(());
        }
        if check_utc_datetime(value) {
            Ok(())
        } else if check_naive_datetime(value) {
            Ok(())
        } else {
            Err(Error::DateParse)
        }
    }

    /// Validate `value` strictly and wrap it unchanged on success.
    pub fn try_from(value: &str) -> (r: Result<Self, Error>)
        ensures
            r is Ok <==> (spec_utc_datetime_ok(value@) || spec_naive_datetime_ok(value@)),
            r matches Ok(v) ==> v@ == value@ && v.wf(),
            r is Err ==> r == Err::<Self, Error>(Error::DateParse),
    {
        match Self::validate(value) {
            Ok(()) => Ok(DateTimeDatatype(value.to_owned())),
            Err(e) => Err(e),
        }
    }

    /// Create a new date-time from the current local time, rendered to
    /// second precision without a timezone.  The result does not go
    /// through validation, but its text would be accepted if fed back in.
    pub fn new() -> (r: Self)
        ensures
            r.wf(),
            spec_naive_datetime_ok(r@),
    {
        DateTimeDatatype(now_naive_text())
    }

    /// Format the wrapped text into an RFC 2822 string, or return the
    /// empty string when it is not an RFC 3339 timestamp.
    pub fn to_rfc2822(&self) -> (r: String)
        ensures
            spec_rfc2822_render(self@) matches Some(t) ==> r@ == t,
            spec_rfc2822_render(self@) is None ==> r@ == Seq::<char>::empty(),
    {
        match rfc2822_render(self.0.as_str()) {
            Some(t) => t,
            None => String::new(),
        }
    }

    /// The wrapped text.
    pub fn as_str(&self) -> (r: &str)
        ensures
            r@ == self@,
    {
        self.0.as_str()
    }
}

impl Default for DateTimeDatatype {
    fn default() -> (r: Self)
        ensures
            spec_naive_datetime_ok(r@),
    {
        Self::new()
    }
}

impl Validate for DateTimeDatatype {
    fn validate(value: &str) -> (r: Result<(), Error>)
        ensures
            r is Ok <==> (spec_utc_datetime_ok(value@) || spec_naive_datetime_ok(value@)),
            r is Err ==> r == Err::<(), Error>(Error::DateParse),
    {
        Self::validate_with(value, true)
    }
}

impl Metaschema for DateTimeDatatype {
    fn _type() -> (r: Option<&'static str>)
        ensures
            r matches Some(t) && t@ == "string"@,
    {
        Some("string")
    }

    fn description() -> (r: Option<&'static str>)
        ensures
            r matches Some(d) && d@ == DATE_TIME_DESCRIPTION@,
    {
        Some(DATE_TIME_DESCRIPTION)
    }
}

impl StringType for DateTimeDatatype {
    fn format() -> (r: Option<&'static str>)
        ensures
            r is None,
    {
        None
    }

    fn pattern() -> (r: Option<&'static str>)
        ensures
            r matches Some(p) && p@ == DATE_TIME_PATTERN@,
    {
        Some(DATE_TIME_PATTERN)
    }

    fn content_encoding() -> (r: Option<&'static str>)
        ensures
            r is None,
    {
        None
    }
}

impl Base for DateTimeDatatype {
    fn base_type() -> (r: String)
        ensures
            r@ == "String"@,
    {
        "String".to_owned()
    }

    fn ref_type() -> (r: String)
        ensures
            r@ == "str"@,
    {
        "str".to_owned()
    }
}

/// A string representing a point in time whose timezone is mandatory: the
/// timezone-free fallback of [`DateTimeDatatype`] is rejected here.
#[derive(Debug, Clone)]
pub struct DateTimeWithTimezoneDatatype(String);

impl View for DateTimeWithTimezoneDatatype {
    type V = Seq<char>;

    closed spec fn view(&self) -> Seq<char> {
        self.0@
    }
}

impl DateTimeWithTimezoneDatatype {
    /// The well-formedness invariant: the wrapped text is a
    /// timezone-aware timestamp.
    pub open spec fn wf(&self) -> bool {
        spec_utc_datetime_ok(self@)
    }

    /// Validate `value` and wrap it unchanged on success.
    pub fn try_from(value: &str) -> (r: Result<Self, Error>)
        ensures
            r is Ok <==> spec_utc_datetime_ok(value@),
            r matches Ok(v) ==> v@ == value@ && v.wf(),
            r is Err ==> r == Err::<Self, Error>(Error::DateParse),
    {
        match Self::validate(value) {
            Ok(()) => Ok(DateTimeWithTimezoneDatatype(value.to_owned())),
            Err(e) => Err(e),
        }
    }

    /// Create a new date-time from the current instant, rendered in
    /// RFC 3339 form with its timezone.  The result does not go through
    /// validation, but its text would be accepted if fed back in.
    pub fn new() -> (r: Self)
        ensures
            r.wf(),
    {
        DateTimeWithTimezoneDatatype(now_utc_text())
    }

    /// The wrapped text.
    pub fn as_str(&self) -> (r: &str)
        ensures
            r@ == self@,
    {
        self.0.as_str()
    }
}

impl Default for DateTimeWithTimezoneDatatype {
    fn default() -> (r: Self)
        ensures
            r.wf(),
    {
        Self::new()
    }
}

impl Validate for DateTimeWithTimezoneDatatype {
    fn validate(value: &str) -> (r: Result<(), Error>)
        ensures
            r is Ok <==> spec_utc_datetime_ok(value@),
            r is Err ==> r == Err::<(), Error>(Error::DateParse),
    {
        if check_utc_datetime(value) {
            Ok(())
        } else {
            Err(Error::DateParse)
        }
    }
}

impl Metaschema for DateTimeWithTimezoneDatatype {
    fn _type() -> (r: Option<&'static str>)
        ensures
            r matches Some(t) && t@ == "string"@,
    {
        Some("string")
    }

    fn description() -> (r: Option<&'static str>)
        ensures
            r matches Some(d) && d@ == DATE_TIME_WITH_TIMEZONE_DESCRIPTION@,
    {
        Some(DATE_TIME_WITH_TIMEZONE_DESCRIPTION)
    }
}

impl StringType for DateTimeWithTimezoneDatatype {
    fn format() -> (r: Option<&'static str>)
        ensures
            r is None,
    {
        None
    }

    fn pattern() -> (r: Option<&'static str>)
        ensures
            r matches Some(p) && p@ == DATE_TIME_WITH_TIMEZONE_PATTERN@,
    {
        Some(DATE_TIME_WITH_TIMEZONE_PATTERN)
    }

    fn content_encoding() -> (r: Option<&'static str>)
        ensures
            r is None,
    {
        None
    }
}

impl Base for DateTimeWithTimezoneDatatype {
    fn base_type() -> (r: String)
        ensures
            r@ == "String"@,
    {
        "String".to_owned()
    }

    fn ref_type() -> (r: String)
        ensures
            r@ == "str"@,
    {
        "str".to_owned()
    }
}

/// A duration accepted by the day-time granularity: it parses and has no
/// year or month component.
pub open spec fn spec_day_time_duration_ok(s: Seq<char>) -> bool {
    spec_duration_parse(s) matches Some(f) && !f.0
}

/// A duration accepted by the year-month granularity: it parses and has
/// no day, hour, minute or second component.
pub open spec fn spec_year_month_duration_ok(s: Seq<char>) -> bool {
    spec_duration_parse(s) matches Some(f) && !f.1
}

/// An amount of time quantified in days, hours, minutes and seconds.  A
/// duration that parses but carries a year or month component does not
/// decompose into these units and is rejected.
#[derive(Debug, Clone)]
pub struct DayTimeDurationDatatype(String);

impl View for DayTimeDurationDatatype {
    type V = Seq<char>;

    closed spec fn view(&self) -> Seq<char> {
        self.0@
    }
}

impl DayTimeDurationDatatype {
    /// The well-formedness invariant: the wrapped text is a duration of
    /// day-time granularity.
    pub open spec fn wf(&self) -> bool {
        spec_day_time_duration_ok(self@)
    }

    /// Validate `value` and wrap it unchanged on success.
    pub fn try_from(value: &str) -> (r: Result<Self, Error>)
        ensures
            r is Ok <==> spec_day_time_duration_ok(value@),
            r matches Ok(v) ==> v@ == value@ && v.wf(),
            r is Err ==> r == Err::<Self, Error>(Error::DurationParse),
    {
        match Self::validate(value) {
            Ok(()) => Ok(DayTimeDurationDatatype(value.to_owned())),
            Err(e) => Err(e),
        }
    }

    /// The wrapped text.
    pub fn as_str(&self) -> (r: &str)
        ensures
            r@ == self@,
    {
        self.0.as_str()
    }
}

impl Validate for DayTimeDurationDatatype {
    fn validate(value: &str) -> (r: Result<(), Error>)
        ensures
            r is Ok <==> spec_day_time_duration_ok(value@),
            r is Err ==> r == Err::<(), Error>(Error::DurationParse),
    {
        match duration_components(value) {
            Some((year_month, _)) => if !year_month {
                Ok(())
            } else {
                Err(Error::DurationParse)
            },
            None => Err(Error::DurationParse),
        }
    }
}

impl Metaschema for DayTimeDurationDatatype {
    fn _type() -> (r: Option<&'static str>)
        ensures
            r matches Some(t) && t@ == "string"@,
    {
        Some("string")
    }

    fn description() -> (r: Option<&'static str>)
        ensures
            r matches Some(d) && d@ == DAY_TIME_DURATION_DESCRIPTION@,
    {
        Some(DAY_TIME_DURATION_DESCRIPTION)
    }
}

impl StringType for DayTimeDurationDatatype {
    fn format() -> (r: Option<&'static str>)
        ensures
            r matches Some(f) && f@ == "duration"@,
    {
        Some("duration")
    }

    fn pattern() -> (r: Option<&'static str>)
        ensures
            r matches Some(p) && p@ == DAY_TIME_DURATION_PATTERN@,
    {
        Some(DAY_TIME_DURATION_PATTERN)
    }

    fn content_encoding() -> (r: Option<&'static str>)
        ensures
            r is None,
    {
        None
    }
}

impl Base for DayTimeDurationDatatype {
    fn base_type() -> (r: String)
        ensures
            r@ == "String"@,
    {
        "String".to_owned()
    }

    fn ref_type() -> (r: String)
        ensures
            r@ == "str"@,
    {
        "str".to_owned()
    }
}

/// An amount of time quantified in years and months, based on ISO 8601
/// durations.  A duration that parses but carries a day, hour, minute or
/// second component does not decompose into these units and is rejected.
#[derive(Debug, Clone)]
pub struct YearMonthDurationDatatype(String);

impl View for YearMonthDurationDatatype {
    type V = Seq<char>;

    closed spec fn view(&self) -> Seq<char> {
        self.0@
    }
}

impl YearMonthDurationDatatype {
    /// The well-formedness invariant: the wrapped text is a duration of
    /// year-month granularity.
    pub open spec fn wf(&self) -> bool {
        spec_year_month_duration_ok(self@)
    }

    /// Validate `value` and wrap it unchanged on success.
    pub fn try_from(value: &str) -> (r: Result<Self, Error>)
        ensures
            r is Ok <==> spec_year_month_duration_ok(value@),
            r matches Ok(v) ==> v@ == value@ && v.wf(),
            r is Err ==> r == Err::<Self, Error>(Error::DurationParse),
    {
        match Self::validate(value) {
            Ok(()) => Ok(YearMonthDurationDatatype(value.to_owned())),
            Err(e) => Err(e),
        }
    }

    /// The wrapped text.
    pub fn as_str(&self) -> (r: &str)
        ensures
            r@ == self@,
    {
        self.0.as_str()
    }
}

impl Validate for YearMonthDurationDatatype {
    fn validate(value: &str) -> (r: Result<(), Error>)
        ensures
            r is Ok <==> spec_year_month_duration_ok(value@),
            r is Err ==> r == Err::<(), Error>(Error::DurationParse),
    {
        match duration_components(value) {
            Some((_, day_time)) => if !day_time {
                Ok(())
            } else {
                Err(Error::DurationParse)
            },
            None => Err(Error::DurationParse),
        }
    }
}

impl Metaschema for YearMonthDurationDatatype {
    fn _type() -> (r: Option<&'static str>)
        ensures
            r matches Some(t) && t@ == "string"@,
    {
        Some("string")
    }

    fn description() -> (r: Option<&'static str>)
        ensures
            r matches Some(d) && d@ == YEAR_MONTH_DURATION_DESCRIPTION@,
    {
        Some(YEAR_MONTH_DURATION_DESCRIPTION)
    }
}

impl StringType for YearMonthDurationDatatype {
    fn format() -> (r: Option<&'static str>)
        ensures
            r matches Some(f) && f@ == "duration"@,
    {
        Some("duration")
    }

    fn pattern() -> (r: Option<&'static str>)
        ensures
            r matches Some(p) && p@ == YEAR_MONTH_DURATION_PATTERN@,
    {
        Some(YEAR_MONTH_DURATION_PATTERN)
    }

    fn content_encoding() -> (r: Option<&'static str>)
        ensures
            r is None,
    {
        None
    }
}

impl Base for YearMonthDurationDatatype {
    fn base_type() -> (r: String)
        ensures
            r@ == "String"@,
    {
        "String".to_owned()
    }

    fn ref_type() -> (r: String)
        ensures
            r@ == "str"@,
    {
        "str".to_owned()
    }
}

/// What construction stores for each temporal type: the raw text when its
/// rule accepts it, nothing otherwise.
pub open spec fn spec_construct_date(s: Seq<char>) -> Option<Seq<char>> {
    if spec_naive_date_ok(s) {
        Some(s)
    } else {
        None
    }
}

/// See [`spec_construct_date`]; the date-time type also accepts the
/// timezone-free fallback.
pub open spec fn spec_construct_date_time(s: Seq<char>) -> Option<Seq<char>> {
    if spec_utc_datetime_ok(s) || spec_naive_datetime_ok(s) {
        Some(s)
    } else {
        None
    }
}

/// See [`spec_construct_date`]; the timezone-mandatory type accepts only
/// the timezone-aware form.
pub open spec fn spec_construct_date_time_with_timezone(s: Seq<char>) -> Option<Seq<char>> {
    if spec_utc_datetime_ok(s) {
        Some(s)
    } else {
        None
    }
}

/// See [`spec_construct_date`], for the day-time duration granularity.
pub open spec fn spec_construct_day_time_duration(s: Seq<char>) -> Option<Seq<char>> {
    if spec_day_time_duration_ok(s) {
        Some(s)
    } else {
        None
    }
}

/// See [`spec_construct_date`], for the year-month duration granularity.
pub open spec fn spec_construct_year_month_duration(s: Seq<char>) -> Option<Seq<char>> {
    if spec_year_month_duration_ok(s) {
        Some(s)
    } else {
        None
    }
}

/// Round-trip: every temporal type stores accepted text unchanged, so
/// rendering a value and constructing again accepts it and stores the
/// same text.
pub proof fn lemma_temporal_round_trip(s: Seq<char>)
    ensures
        spec_construct_date(s) matches Some(t) ==> spec_construct_date(t) == Some(t),
        spec_construct_date_time(s) matches Some(t) ==> spec_construct_date_time(t) == Some(t),
        spec_construct_date_time_with_timezone(s) matches Some(t)
            ==> spec_construct_date_time_with_timezone(t) == Some(t),
        spec_construct_day_time_duration(s) matches Some(t) ==> spec_construct_day_time_duration(t)
            == Some(t),
        spec_construct_year_month_duration(s) matches Some(t)
            ==> spec_construct_year_month_duration(t) == Some(t),
{
}

} // verus!

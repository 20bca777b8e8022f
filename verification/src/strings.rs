//! The plain-string datatype family: the whitespace-constrained string,
//! the declarative-only (pass-through) string formats, and the IP address
//! literals.

use vstd::prelude::*;
use vstd::string::StrSliceExecFns;

use crate::error::Error;
use crate::validate::Validate;
use crate::{Base, Metaschema, StringType};

verus! {

/// The human description of [`StringDatatype`], published as schema
/// metadata.
pub const STRING_DESCRIPTION: &'static str = "A non-empty string with leading and trailing whitespace disallowed. Whitespace is: U+9, U+10, U+32 or [ \n\t]+";

/// The human description of [`Base64Datatype`], published as schema
/// metadata.
pub const BASE64_DESCRIPTION: &'static str = "Binary data encoded using the Base 64 encoding algorithm as defined by RFC4648.";

/// The human description of [`EmailAddressDatatype`], published as schema
/// metadata.
pub const EMAIL_ADDRESS_DESCRIPTION: &'static str = "An email address string formatted according to RFC 6531.";

/// The human description of [`HostnameDatatype`], published as schema
/// metadata.
pub const HOSTNAME_DESCRIPTION: &'static str = "An internationalized Internet host name string formatted according to section 2.3.2.3 of RFC5890.";

/// The human description of [`MarkupLineDatatype`], published as schema
/// metadata.
pub const MARKUP_LINE_DESCRIPTION: &'static str = "A single line of Markdown content conformant to the Commonmark specification.";

/// The human description of [`MarkupMultilineDatatype`], published as schema
/// metadata.
pub const MARKUP_MULTILINE_DESCRIPTION: &'static str = "A multiple lines of Markdown content conformant to the Commonmark specification.";

/// The human description of [`IPV4AddressDatatype`], published as schema
/// metadata.
pub const IPV4_ADDRESS_DESCRIPTION: &'static str = "An Internet Protocol version 4 address represented using dotted-quad syntax as defined in section 3.2 of RFC2673.";

/// The human description of [`IPV6AddressDatatype`], published as schema
/// metadata.
pub const IPV6_ADDRESS_DESCRIPTION: &'static str = "An Internet Protocol version 6 address represented using the syntax defined in section 2.2 of RFC3513.";

/// The Unicode white-space property, as `char::is_whitespace` reports it.
pub open spec fn spec_is_whitespace(c: char) -> bool {
    let u = c as u32;
    (0x9 <= u && u <= 0xD)
        || u == 0x20
        || u == 0x85
        || u == 0xA0
        || u == 0x1680
        || (0x2000 <= u && u <= 0x200A)
        || u == 0x2028
        || u == 0x2029
        || u == 0x202F
        || u == 0x205F
        || u == 0x3000
}

/// Returns `true` if `c` has the Unicode white-space property.
pub fn is_whitespace_char(c: char) -> (r: bool)
    ensures
        r == spec_is_whitespace(c),
{
    let u = c as u32;
    (0x9 <= u && u <= 0xD)
        || u == 0x20
        || u == 0x85
        || u == 0xA0
        || u == 0x1680
        || (0x2000 <= u && u <= 0x200A)
        || u == 0x2028
        || u == 0x2029
        || u == 0x202F
        || u == 0x205F
        || u == 0x3000
}

/// A text neither starts nor ends with white space; equivalently, trimming
/// it changes nothing.
pub open spec fn spec_no_edge_whitespace(s: Seq<char>) -> bool {
    s.len() == 0 || (!spec_is_whitespace(s[0]) && !spec_is_whitespace(s[s.len() - 1]))
}

/// A string with leading and trailing whitespace disallowed.
#[derive(Debug, Clone)]
pub struct StringDatatype(String);

impl View for StringDatatype {
    type V = Seq<char>;

    closed spec fn view(&self) -> Seq<char> {
        self.0@
    }
}

impl StringDatatype {
    /// The well-formedness invariant: the wrapped text has no leading or
    /// trailing white space.
    pub open spec fn wf(&self) -> bool {
        spec_no_edge_whitespace(self@)
    }

    /// Validate `value` and wrap it unchanged on success.
    pub fn try_from(value: &str) -> (r: Result<Self, Error>)
        ensures
            r is Ok <==> spec_no_edge_whitespace(value@),
            r matches Ok(v) ==> v@ == value@ && v.wf(),
            r matches Err(e) ==> (e matches Error::StringParse(m) && m@
                == "Trailing and leading whitespace is not allowed"@),
    {
        match Self::validate(value) {
            Ok(()) => Ok(StringDatatype(value.to_owned())),
            Err(e) => Err(e),
        }
    }

    /// The wrapped text.
    pub fn as_str(&self) -> (r: &str)
        ensures
            r@ == self@,
    {
        self.0.as_str()
    }
}

impl core::str::FromStr for StringDatatype {
    type Err = Error;

    fn from_str(s: &str) -> (r: Result<Self, Error>) {
        Self::try_from(s)
    }
}

impl Validate for StringDatatype {
    fn validate(value: &str) -> (r: Result<(), Error>)
        ensures
            r is Ok <==> spec_no_edge_whitespace(value@),
            r matches Err(e) ==> (e matches Error::StringParse(m) && m@
                == "Trailing and leading whitespace is not allowed"@),
    {
        let n = value.unicode_len();
        if n == 0 {
            return Ok(());
        }
        if !is_whitespace_char(value.get_char(0)) && !is_whitespace_char(value.get_char(n - 1)) {
            Ok(())
        } else {
            Err(Error::StringParse("Trailing and leading whitespace is not allowed".to_owned()))
        }
    }
}

impl Metaschema for StringDatatype {
    fn _type() -> (r: Option<&'static str>)
        ensures
            r matches Some(t) && t@ == "string"@,
    {
        Some("string")
    }

    fn description() -> (r: Option<&'static str>)
        ensures
            r matches Some(d) && d@ == STRING_DESCRIPTION@,
    {
        Some(STRING_DESCRIPTION)
    }
}

impl StringType for StringDatatype {
    fn format() -> (r: Option<&'static str>)
        ensures
            r is None,
    {
        None
    }

    fn pattern() -> (r: Option<&'static str>)
        ensures
            r matches Some(p) && p@ == "^\\S(.*\\S)?$"@,
    {
        Some("^\\S(.*\\S)?$")
    }

    fn content_encoding() -> (r: Option<&'static str>)
        ensures
            r matches Some(c) && c@ == "string"@,
    {
        Some("string")
    }
}

impl Base for StringDatatype {
    fn base_type() -> (r: String)
        ensures
            r@ == "String"@,
    {
        "String".to_owned()
    }

    fn ref_type() -> (r: String)
        ensures
            r@ == "str"@,
    {
        "str".to_owned()
    }
}

/// What construction stores for the whitespace-constrained string type.
pub open spec fn spec_construct_string(s: Seq<char>) -> Option<Seq<char>> {
    if spec_no_edge_whitespace(s) {
        Some(s)
    } else {
        None
    }
}

/// Round-trip: a plain string constructed from accepted text keeps that
/// text, so rendering it and constructing again accepts it and stores the
/// same text.
pub proof fn lemma_string_round_trip(s: Seq<char>)
    requires
        spec_construct_string(s) is Some,
    ensures
        spec_construct_string(spec_construct_string(s)->Some_0) == spec_construct_string(s),
{
}

/// A string representing arbitrary binary data encoded using the Base 64
/// algorithm as defined by RFC 4648.  The pattern is declarative-only:
/// validation is pass-through.
#[derive(Debug, Clone)]
pub struct Base64Datatype(String);

impl View for Base64Datatype {
    type V = Seq<char>;

    closed spec fn view(&self) -> Seq<char> {
        self.0@
    }
}

impl Base64Datatype {
    /// Validate `value` and wrap it unchanged; this type's constraint is
    /// declarative-only, so every text is accepted.
    pub fn try_from(value: &str) -> (r: Result<Self, Error>)
        ensures
            r matches Ok(v) && v@ == value@,
    {
        Ok(Base64Datatype(value.to_owned()))
    }

    /// The wrapped text.
    pub fn as_str(&self) -> (r: &str)
        ensures
            r@ == self@,
    {
        self.0.as_str()
    }
}

impl Validate for Base64Datatype {
    fn validate(_value: &str) -> (r: Result<(), Error>)
        ensures
            r is Ok,
    {
        Ok(())
    }
}

impl Metaschema for Base64Datatype {
    fn _type() -> (r: Option<&'static str>)
        ensures
            r matches Some(t) && t@ == "string"@,
    {
        Some("string")
    }

    fn description() -> (r: Option<&'static str>)
        ensures
            r matches Some(d) && d@ == BASE64_DESCRIPTION@,
    {
        Some(BASE64_DESCRIPTION)
    }
}

impl StringType for Base64Datatype {
    fn format() -> (r: Option<&'static str>)
        ensures
            r is None,
    {
        None
    }

    fn pattern() -> (r: Option<&'static str>)
        ensures
            r matches Some(p) && p@ == "^[0-9A-Za-z+\\/]+={0,2}$"@,
    {
        Some("^[0-9A-Za-z+\\/]+={0,2}$")
    }

    fn content_encoding() -> (r: Option<&'static str>)
        ensures
            r matches Some(c) && c@ == "base64"@,
    {
        Some("base64")
    }
}

impl Base for Base64Datatype {
    fn base_type() -> (r: String)
        ensures
            r@ == "String"@,
    {
        "String".to_owned()
    }

    fn ref_type() -> (r: String)
        ensures
            r@ == "str"@,
    {
        "str".to_owned()
    }
}

/// An email address string formatted according to RFC 6531.  The pattern
/// is declarative-only: validation is pass-through.
#[derive(Debug, Clone)]
pub struct EmailAddressDatatype(String);

impl View for EmailAddressDatatype {
    type V = Seq<char>;

    closed spec fn view(&self) -> Seq<char> {
        self.0@
    }
}

impl EmailAddressDatatype {
    /// Validate `value` and wrap it unchanged; this type's constraint is
    /// declarative-only, so every text is accepted.
    pub fn try_from(value: &str) -> (r: Result<Self, Error>)
        ensures
            r matches Ok(v) && v@ == value@,
    {
        Ok(EmailAddressDatatype(value.to_owned()))
    }

    /// The wrapped text.
    pub fn as_str(&self) -> (r: &str)
        ensures
            r@ == self@,
    {
        self.0.as_str()
    }
}

impl Validate for EmailAddressDatatype {
    fn validate(_value: &str) -> (r: Result<(), Error>)
        ensures
            r is Ok,
    {
        Ok(())
    }
}

impl Metaschema for EmailAddressDatatype {
    fn _type() -> (r: Option<&'static str>)
        ensures
            r matches Some(t) && t@ == "string"@,
    {
        Some("string")
    }

    fn description() -> (r: Option<&'static str>)
        ensures
            r matches Some(d) && d@ == EMAIL_ADDRESS_DESCRIPTION@,
    {
        Some(EMAIL_ADDRESS_DESCRIPTION)
    }
}

impl StringType for EmailAddressDatatype {
    fn format() -> (r: Option<&'static str>)
        ensures
            r is None,
    {
        None
    }

    fn pattern() -> (r: Option<&'static str>)
        ensures
            r matches Some(p) && p@ == "^.+@.+$"@,
    {
        Some("^.+@.+$")
    }

    fn content_encoding() -> (r: Option<&'static str>)
        ensures
            r matches Some(c) && c@ == "email"@,
    {
        Some("email")
    }
}

impl Base for EmailAddressDatatype {
    fn base_type() -> (r: String)
        ensures
            r@ == "String"@,
    {
        "String".to_owned()
    }

    fn ref_type() -> (r: String)
        ensures
            r@ == "str"@,
    {
        "str".to_owned()
    }
}

/// An internationalized Internet host name.  The format tag is
/// declarative-only: validation is pass-through.
#[derive(Debug, Clone)]
pub struct HostnameDatatype(String);

impl View for HostnameDatatype {
    type V = Seq<char>;

    closed spec fn view(&self) -> Seq<char> {
        self.0@
    }
}

impl HostnameDatatype {
    /// Validate `value` and wrap it unchanged; this type's constraint is
    /// declarative-only, so every text is accepted.
    pub fn try_from(value: &str) -> (r: Result<Self, Error>)
        ensures
            r matches Ok(v) && v@ == value@,
    {
        Ok(HostnameDatatype(value.to_owned()))
    }

    /// The wrapped text.
    pub fn as_str(&self) -> (r: &str)
        ensures
            r@ == self@,
    {
        self.0.as_str()
    }
}

impl Validate for HostnameDatatype {
    fn validate(_value: &str) -> (r: Result<(), Error>)
        ensures
            r is Ok,
    {
        Ok(())
    }
}

impl Metaschema for HostnameDatatype {
    fn _type() -> (r: Option<&'static str>)
        ensures
            r matches Some(t) && t@ == "string"@,
    {
        Some("string")
    }

    fn description() -> (r: Option<&'static str>)
        ensures
            r matches Some(d) && d@ == HOSTNAME_DESCRIPTION@,
    {
        Some(HOSTNAME_DESCRIPTION)
    }
}

impl StringType for HostnameDatatype {
    fn format() -> (r: Option<&'static str>)
        ensures
            r matches Some(f) && f@ == "idn-hostname"@,
    {
        Some("idn-hostname")
    }

    fn pattern() -> (r: Option<&'static str>)
        ensures
            r is None,
    {
        None
    }

    fn content_encoding() -> (r: Option<&'static str>)
        ensures
            r is None,
    {
        None
    }
}

impl Base for HostnameDatatype {
    fn base_type() -> (r: String)
        ensures
            r@ == "String"@,
    {
        "String".to_owned()
    }

    fn ref_type() -> (r: String)
        ensures
            r@ == "str"@,
    {
        "str".to_owned()
    }
}

/// A single line of Markdown content conformant to the Commonmark
/// specification.  The pattern is declarative-only: validation is
/// pass-through.
#[derive(Debug, Clone)]
pub struct MarkupLineDatatype(String);

impl View for MarkupLineDatatype {
    type V = Seq<char>;

    closed spec fn view(&self) -> Seq<char> {
        self.0@
    }
}

impl MarkupLineDatatype {
    /// Validate `value` and wrap it unchanged; this type's constraint is
    /// declarative-only, so every text is accepted.
    pub fn try_from(value: &str) -> (r: Result<Self, Error>)
        ensures
            r matches Ok(v) && v@ == value@,
    {
        Ok(MarkupLineDatatype(value.to_owned()))
    }

    /// The wrapped text.
    pub fn as_str(&self) -> (r: &str)
        ensures
            r@ == self@,
    {
        self.0.as_str()
    }
}

impl Validate for MarkupLineDatatype {
    fn validate(_value: &str) -> (r: Result<(), Error>)
        ensures
            r is Ok,
    {
        Ok(())
    }
}

impl Metaschema for MarkupLineDatatype {
    fn _type() -> (r: Option<&'static str>)
        ensures
            r matches Some(t) && t@ == "string"@,
    {
        Some("string")
    }

    fn description() -> (r: Option<&'static str>)
        ensures
            r matches Some(d) && d@ == MARKUP_LINE_DESCRIPTION@,
    {
        Some(MARKUP_LINE_DESCRIPTION)
    }
}

impl StringType for MarkupLineDatatype {
    fn format() -> (r: Option<&'static str>)
        ensures
            r is None,
    {
        None
    }

    fn pattern() -> (r: Option<&'static str>)
        ensures
            r matches Some(p) && p@ == "^[^\n]+$"@,
    {
        Some("^[^\n]+$")
    }

    fn content_encoding() -> (r: Option<&'static str>)
        ensures
            r is None,
    {
        None
    }
}

impl Base for MarkupLineDatatype {
    fn base_type() -> (r: String)
        ensures
            r@ == "String"@,
    {
        "String".to_owned()
    }

    fn ref_type() -> (r: String)
        ensures
            r@ == "str"@,
    {
        "str".to_owned()
    }
}

/// Multiple lines of Markdown content conformant to the Commonmark
/// specification.  The pattern is declarative-only: validation is
/// pass-through.
#[derive(Debug, Clone)]
pub struct MarkupMultilineDatatype(String);

impl View for MarkupMultilineDatatype {
    type V = Seq<char>;

    closed spec fn view(&self) -> Seq<char> {
        self.0@
    }
}

impl MarkupMultilineDatatype {
    /// Validate `value` and wrap it unchanged; this type's constraint is
    /// declarative-only, so every text is accepted.
    pub fn try_from(value: &str) -> (r: Result<Self, Error>)
        ensures
            r matches Ok(v) && v@ == value@,
    {
        Ok(MarkupMultilineDatatype(value.to_owned()))
    }

    /// The wrapped text.
    pub fn as_str(&self) -> (r: &str)
        ensures
            r@ == self@,
    {
        self.0.as_str()
    }
}

impl Validate for MarkupMultilineDatatype {
    fn validate(_value: &str) -> (r: Result<(), Error>)
        ensures
            r is Ok,
    {
        Ok(())
    }
}

impl Metaschema for MarkupMultilineDatatype {
    fn _type() -> (r: Option<&'static str>)
        ensures
            r matches Some(t) && t@ == "string"@,
    {
        Some("string")
    }

    fn description() -> (r: Option<&'static str>)
        ensures
            r matches Some(d) && d@ == MARKUP_MULTILINE_DESCRIPTION@,
    {
        Some(MARKUP_MULTILINE_DESCRIPTION)
    }
}

impl StringType for MarkupMultilineDatatype {
    fn format() -> (r: Option<&'static str>)
        ensures
            r is None,
    {
        None
    }

    fn pattern() -> (r: Option<&'static str>)
        ensures
            r matches Some(p) && p@ == "^[^\n]+$"@,
    {
        Some("^[^\n]+$")
    }

    fn content_encoding() -> (r: Option<&'static str>)
        ensures
            r is None,
    {
        None
    }
}

impl Base for MarkupMultilineDatatype {
    fn base_type() -> (r: String)
        ensures
            r@ == "String"@,
    {
        "String".to_owned()
    }

    fn ref_type() -> (r: String)
        ensures
            r@ == "str"@,
    {
        "str".to_owned()
    }
}

/// The declarative IPv4 pattern, published as schema metadata.
pub const IPV4_PATTERN: &'static str = "^((25[0-5]|2[0-4][0-9]|1[0-9][0-9]|[1-9][0-9]|[0-9])\\.){{3}}(25[0-5]|2[0-4][0-9]|1[0-9][0-9]|[1-9][0-9]|[0-9])$";

/// The declarative IPv6 pattern, published as schema metadata.
pub const IPV6_PATTERN: &'static str = "^(([0-9a-fA-F]{{1,4}}:){{7,7}}[0-9a-fA-F]{{1,4}}|([0-9a-fA-F]{{1,4}}:){{1,7}}:|([0-9a-fA-F]{{1,4}}:){{1,6}}:[0-9a-fA-F]{{1,4}}|([0-9a-fA-F]{{1,4}}:){{1,5}}(:[0-9a-fA-F]{{1,4}}){{1,2}}|([0-9a-fA-F]{{1,4}}:){{1,4}}(:[0-9a-fA-F]{{1,4}}){{1,3}}|([0-9a-fA-F]{{1,4}}:){{1,3}}(:[0-9a-fA-F]{{1,4}}){{1,4}}|([0-9a-fA-F]{{1,4}}:){{1,2}}(:[0-9a-fA-F]{{1,4}}){{1,5}}|[0-9a-fA-F]{{1,4}}:((:[0-9a-fA-F]{{1,4}}){{1,6}})|:((:[0-9a-fA-F]{{1,4}}){{1,7}}|:)|[fF][eE]80:(:[0-9a-fA-F]{{0,4}}){{0,4}}%[0-9a-zA-Z]{{1,}}|::([fF]{{4}}(:0{{1,4}}){{0,1}}:){{0,1}}((25[0-5]|2[0-4][0-9]|1[0-9][0-9]|[1-9][0-9]|[0-9]).){{3,3}}(25[0-5]|2[0-4][0-9]|1[0-9][0-9]|[1-9][0-9]|[0-9])|([0-9a-fA-F]{{1,4}}:){{1,4}}:((25[0-5]|2[0-4][0-9]|1[0-9][0-9]|[1-9][0-9]|[0-9]).){{3,3}}(25[0-5]|2[0-4][0-9]|1[0-9][0-9]|[1-9][0-9]|[0-9]))$";

/// A decimal digit.
pub open spec fn spec_is_digit(c: char) -> bool {
    '0' as u32 <= c as u32 && c as u32 <= '9' as u32
}

/// The numeric value of a digit sequence read in decimal.
pub open spec fn spec_decimal_value(s: Seq<char>) -> int
    decreases s.len(),
{
    if s.len() == 0 {
        0
    } else {
        spec_decimal_value(s.drop_last()) * 10 + (s.last() as u32 - '0' as u32)
    }
}

/// A dotted-quad octet: one to three digits, no superfluous leading zero,
/// and a value of at most 255.
pub open spec fn spec_is_octet(s: Seq<char>) -> bool {
    1 <= s.len() <= 3
        && (forall|i: int| 0 <= i < s.len() ==> spec_is_digit(s[i]))
        && (s.len() > 1 ==> s[0] != '0')
        && spec_decimal_value(s) <= 255
}

/// The pieces of a text between its `.` separators, in order.
pub open spec fn spec_split_dots(s: Seq<char>) -> Seq<Seq<char>>
    decreases s.len(),
{
    if s.len() == 0 {
        seq![Seq::<char>::empty()]
    } else {
        let rest = spec_split_dots(s.drop_last());
        if s.last() == '.' {
            rest.push(Seq::<char>::empty())
        } else {
            rest.update(rest.len() - 1, rest.last().push(s.last()))
        }
    }
}

/// An IPv4 address in dotted-quad syntax: exactly four octets separated by
/// dots.
pub open spec fn spec_is_ipv4(s: Seq<char>) -> bool {
    let parts = spec_split_dots(s);
    parts.len() == 4 && (forall|i: int| 0 <= i < 4 ==> spec_is_octet(parts[i]))
}

proof fn lemma_split_dots_len(s: Seq<char>)
    ensures
        spec_split_dots(s).len() >= 1,
    decreases s.len(),
{
    if s.len() > 0 {
        lemma_split_dots_len(s.drop_last());
    }
}

proof fn lemma_decimal_value_bound(s: Seq<char>)
    requires
        forall|i: int| 0 <= i < s.len() ==> spec_is_digit(s[i]),
    ensures
        0 <= spec_decimal_value(s),
        s.len() == 0 ==> spec_decimal_value(s) == 0,
        s.len() <= 1 ==> spec_decimal_value(s) <= 9,
        s.len() <= 2 ==> spec_decimal_value(s) <= 99,
        s.len() <= 3 ==> spec_decimal_value(s) <= 999,
    decreases s.len(),
{
    if s.len() > 0 {
        let p = s.drop_last();
        assert(forall|i: int| 0 <= i < p.len() ==> spec_is_digit(p[i]));
        lemma_decimal_value_bound(p);
    }
}

/// Decide whether `value` is an IPv4 address in dotted-quad syntax.  The
/// scan keeps, for the part of the text already read, the number of
/// completed dot-separated pieces, whether each was a well-formed octet,
/// and the digits of the piece still open.
pub fn is_ipv4_text(value: &str) -> (r: bool)
    ensures
        r == spec_is_ipv4(value@),
{
    let n = value.unicode_len();
    let mut i: usize = 0;
    let mut parts_done: usize = 0;
    let mut parts_ok: bool = true;
    let mut all_digits: bool = true;
    let mut first_zero: bool = false;
    let mut cur_len: usize = 0;
    let mut val: u32 = 0;
    while i < n
        invariant
            n == value@.len(),
            i <= n,
            parts_done <= i,
            cur_len <= i,
            spec_split_dots(value@.take(i as int)).len() == parts_done + 1,
            parts_ok == (forall|k: int|
                0 <= k < parts_done ==> spec_is_octet(
                    spec_split_dots(value@.take(i as int))[k],
                )),
            cur_len == spec_split_dots(value@.take(i as int)).last().len(),
            all_digits == (forall|k: int|
                0 <= k < cur_len ==> spec_is_digit(
                    spec_split_dots(value@.take(i as int)).last()[k],
                )),
            cur_len > 0 ==> first_zero == (spec_split_dots(value@.take(i as int)).last()[0]
                == '0'),
            (all_digits && cur_len <= 3) ==> val == spec_decimal_value(
                spec_split_dots(value@.take(i as int)).last(),
            ),
            val <= 999,
        decreases n - i,
    {
        let c = value.get_char(i);
        proof {
            let pre = value@.take(i as int);
            let post = value@.take(i as int + 1);
            assert(post.drop_last() =~= pre);
            assert(post.last() == value@[i as int]);
            lemma_split_dots_len(pre);
        }
        if c == '.' {
            let octet_ok = all_digits && cur_len >= 1 && cur_len <= 3 && !(cur_len > 1
                && first_zero) && val <= 255;
            proof {
                let p = spec_split_dots(value@.take(i as int)).last();
                if all_digits && cur_len <= 3 {
                    assert(octet_ok == spec_is_octet(p));
                } else {
                    assert(!octet_ok);
                    assert(!spec_is_octet(p));
                }
            }
            parts_ok = parts_ok && octet_ok;
            parts_done = parts_done + 1;
            all_digits = true;
            first_zero = false;
            cur_len = 0;
            val = 0;
            proof {
                let pre_parts = spec_split_dots(value@.take(i as int));
                let post_parts = spec_split_dots(value@.take(i as int + 1));
                assert(post_parts == pre_parts.push(Seq::<char>::empty()));
                assert(forall|k: int|
                    0 <= k < pre_parts.len() ==> post_parts[k] == pre_parts[k]);
                assert(pre_parts.last() == pre_parts[parts_done - 1]);
            }
        } else {
            let u = c as u32;
            let is_d = '0' as u32 <= u && u <= '9' as u32;
            proof {
                let pre_parts = spec_split_dots(value@.take(i as int));
                let p = pre_parts.last();
                let p2 = p.push(value@[i as int]);
                let post_parts = spec_split_dots(value@.take(i as int + 1));
                assert(post_parts == pre_parts.update(pre_parts.len() - 1, p2));
                assert(post_parts.last() == p2);
                assert(forall|k: int|
                    0 <= k < pre_parts.len() - 1 ==> post_parts[k] == pre_parts[k]);
                assert(p2.drop_last() =~= p);
                assert(p2.last() == value@[i as int]);
                if all_digits && cur_len < 3 {
                    lemma_decimal_value_bound(p);
                }
            }
            if cur_len == 0 {
                first_zero = c == '0';
            }
            if is_d {
                if all_digits && cur_len < 3 {
                    val = val * 10 + (u - '0' as u32);
                } else {
                    val = 0;
                }
            } else {
                all_digits = false;
                val = 0;
            }
            cur_len = cur_len + 1;
        }
        i = i + 1;
    }
    proof {
        assert(value@.take(n as int) =~= value@);
        lemma_split_dots_len(value@);
    }
    let last_ok = all_digits && cur_len >= 1 && cur_len <= 3 && !(cur_len > 1 && first_zero)
        && val <= 255;
    proof {
        let parts = spec_split_dots(value@);
        let p = parts.last();
        if all_digits && cur_len <= 3 {
            assert(last_ok == spec_is_octet(p));
        } else {
            assert(!last_ok);
            assert(!spec_is_octet(p));
        }
        if parts_done == 3 {
            assert(parts.len() == 4);
            assert(p == parts[3]);
            assert((parts_ok && last_ok) == (forall|k: int|
                0 <= k < 4 ==> spec_is_octet(parts[k])));
        }
    }
    parts_done == 3 && parts_ok && last_ok
}

/// An Internet Protocol version 4 address represented using dotted-quad
/// syntax as defined in section 3.2 of RFC 2673.
#[derive(Debug, Clone)]
pub struct IPV4AddressDatatype(String);

impl View for IPV4AddressDatatype {
    type V = Seq<char>;

    closed spec fn view(&self) -> Seq<char> {
        self.0@
    }
}

impl IPV4AddressDatatype {
    /// The well-formedness invariant: the wrapped text is a dotted-quad
    /// IPv4 address.
    pub open spec fn wf(&self) -> bool {
        spec_is_ipv4(self@)
    }

    /// Validate `value` and wrap it unchanged on success.
    pub fn try_from(value: &str) -> (r: Result<Self, Error>)
        ensures
            r is Ok <==> spec_is_ipv4(value@),
            r matches Ok(v) ==> v@ == value@ && v.wf(),
            r is Err ==> r == Err::<Self, Error>(Error::AddressParse),
    {
        if is_ipv4_text(value) {
            Ok(IPV4AddressDatatype(value.to_owned()))
        } else {
            Err(Error::AddressParse)
        }
    }

    /// The wrapped text.
    pub fn as_str(&self) -> (r: &str)
        ensures
            r@ == self@,
    {
        self.0.as_str()
    }
}

impl Validate for IPV4AddressDatatype {
    fn validate(value: &str) -> (r: Result<(), Error>)
        ensures
            r is Ok <==> spec_is_ipv4(value@),
            r is Err ==> r == Err::<(), Error>(Error::AddressParse),
    {
        if is_ipv4_text(value) {
            Ok(())
        } else {
            Err(Error::AddressParse)
        }
    }
}

impl Metaschema for IPV4AddressDatatype {
    fn _type() -> (r: Option<&'static str>)
        ensures
            r matches Some(t) && t@ == "string"@,
    {
        Some("string")
    }

    fn description() -> (r: Option<&'static str>)
        ensures
            r matches Some(d) && d@ == IPV4_ADDRESS_DESCRIPTION@,
    {
        Some(IPV4_ADDRESS_DESCRIPTION)
    }
}

impl StringType for IPV4AddressDatatype {
    fn format() -> (r: Option<&'static str>)
        ensures
            r matches Some(f) && f@ == "ipv4"@,
    {
        Some("ipv4")
    }

    fn pattern() -> (r: Option<&'static str>)
        ensures
            r matches Some(p) && p@ == IPV4_PATTERN@,
    {
        Some(IPV4_PATTERN)
    }

    fn content_encoding() -> (r: Option<&'static str>)
        ensures
            r is None,
    {
        None
    }
}

impl Base for IPV4AddressDatatype {
    fn base_type() -> (r: String)
        ensures
            r@ == "String"@,
    {
        "String".to_owned()
    }

    fn ref_type() -> (r: String)
        ensures
            r@ == "str"@,
    {
        "str".to_owned()
    }
}

/// Whether a text is a valid IPv6 address literal; named after the
/// standard library's parser, which decides it from the characters alone.
pub uninterp spec fn ipv6_text_ok(s: Seq<char>) -> bool;

/// Relies on `core::net::Ipv6Addr`'s `FromStr` implementation: whether a
/// text parses as an IPv6 address literal depends on its characters alone.
#[verifier::external_body]
fn check_ipv6_text(value: &str) -> (r: bool)
    ensures
        r == ipv6_text_ok(value@),
{
    value.parse::<core::net::Ipv6Addr>().is_ok()
}

/// An Internet Protocol version 6 address represented using the syntax
/// defined in section 2.2 of RFC 3513.
#[derive(Debug, Clone)]
pub struct IPV6AddressDatatype(String);

impl View for IPV6AddressDatatype {
    type V = Seq<char>;

    closed spec fn view(&self) -> Seq<char> {
        self.0@
    }
}

impl IPV6AddressDatatype {
    /// The well-formedness invariant: the wrapped text is an IPv6 address
    /// literal.
    pub open spec fn wf(&self) -> bool {
        ipv6_text_ok(self@)
    }

    /// Validate `value` and wrap it unchanged on success.
    pub fn try_from(value: &str) -> (r: Result<Self, Error>)
        ensures
            r is Ok <==> ipv6_text_ok(value@),
            r matches Ok(v) ==> v@ == value@ && v.wf(),
            r is Err ==> r == Err::<Self, Error>(Error::AddressParse),
    {
        if check_ipv6_text(value) {
            Ok(IPV6AddressDatatype(value.to_owned()))
        } else {
            Err(Error::AddressParse)
        }
    }

    /// The wrapped text.
    pub fn as_str(&self) -> (r: &str)
        ensures
            r@ == self@,
    {
        self.0.as_str()
    }
}

impl Validate for IPV6AddressDatatype {
    fn validate(value: &str) -> (r: Result<(), Error>)
        ensures
            r is Ok <==> ipv6_text_ok(value@),
            r is Err ==> r == Err::<(), Error>(Error::AddressParse),
    {
        if check_ipv6_text(value) {
            Ok(())
        } else {
            Err(Error::AddressParse)
        }
    }
}

impl Metaschema for IPV6AddressDatatype {
    fn _type() -> (r: Option<&'static str>)
        ensures
            r matches Some(t) && t@ == "string"@,
    {
        Some("string")
    }

    fn description() -> (r: Option<&'static str>)
        ensures
            r matches Some(d) && d@ == IPV6_ADDRESS_DESCRIPTION@,
    {
        Some(IPV6_ADDRESS_DESCRIPTION)
    }
}

impl StringType for IPV6AddressDatatype {
    fn format() -> (r: Option<&'static str>)
        ensures
            r matches Some(f) && f@ == "ipv6"@,
    {
        Some("ipv6")
    }

    fn pattern() -> (r: Option<&'static str>)
        ensures
            r matches Some(p) && p@ == IPV6_PATTERN@,
    {
        Some(IPV6_PATTERN)
    }

    fn content_encoding() -> (r: Option<&'static str>)
        ensures
            r is None,
    {
        None
    }
}

impl Base for IPV6AddressDatatype {
    fn base_type() -> (r: String)
        ensures
            r@ == "String"@,
    {
        "String".to_owned()
    }

    fn ref_type() -> (r: String)
        ensures
            r@ == "str"@,
    {
        "str".to_owned()
    }
}

} // verus!

//! A non-colonized name: the restricted-alphabet identifier underlying the
//! token datatype.  The first character must come from the name-start class
//! (letters, underscore and the specified Unicode ranges); every later
//! character may additionally be a digit, hyphen, period or a character of
//! the middle-dot and combining ranges.

use vstd::prelude::*;
use vstd::string::StrSliceExecFns;

use crate::error::Error;
use crate::Base;

verus! {

/// The start-character class of a non-colonized name.
pub open spec fn spec_is_start_char(c: char) -> bool {
    let u = c as u32;
    ('a' as u32 <= u && u <= 'z' as u32)
        || ('A' as u32 <= u && u <= 'Z' as u32)
        || u == '_' as u32
        || (0xC0 <= u && u <= 0xD6)
        || (0xD8 <= u && u <= 0xF6)
        || (0xF8 <= u && u <= 0x2FF)
        || (0x370 <= u && u <= 0x37D)
        || (0x37F <= u && u <= 0x1FFF)
        || (0x200C <= u && u <= 0x200D)
        || (0x2070 <= u && u <= 0x218F)
        || (0x2C00 <= u && u <= 0x2FEF)
        || (0x3001 <= u && u <= 0xD7FF)
        || (0xF900 <= u && u <= 0xFDCF)
        || (0xFDF0 <= u && u <= 0xFFFD)
        || (0x10000 <= u && u <= 0xEFFFF)
}

/// The name-character class: the start class plus digits, hyphen, period,
/// the middle dot and the combining ranges.
pub open spec fn spec_is_name_char(c: char) -> bool {
    let u = c as u32;
    spec_is_start_char(c)
        || u == '-' as u32
        || u == '.' as u32
        || u == 0xB7
        || ('0' as u32 <= u && u <= '9' as u32)
        || (0x300 <= u && u <= 0x36F)
        || (0x203F <= u && u <= 0x2040)
}

/// A text is a well-formed non-colonized name when it is empty or starts
/// with a start-class character followed only by name-class characters.
pub open spec fn spec_valid_ncname(s: Seq<char>) -> bool {
    s.len() == 0
        || (spec_is_start_char(s[0]) && forall|i: int| 1 <= i < s.len() ==> spec_is_name_char(s[i]))
}

/// A validated non-colonized name.  A live instance always satisfies
/// [`spec_valid_ncname`]; the only constructor that builds one from raw
/// text is [`NCName::new_if_valid`].
#[derive(Debug, Clone)]
pub struct NCName(String);

impl View for NCName {
    type V = Seq<char>;

    closed spec fn view(&self) -> Seq<char> {
        self.0@
    }
}

impl NCName {
    /// The well-formedness invariant: the wrapped text is a valid
    /// non-colonized name.
    pub open spec fn wf(&self) -> bool {
        spec_valid_ncname(self@)
    }

    /// Returns `true` if `c` is a legal name-start character.
    pub fn is_valid_start_char(c: char) -> (r: bool)
        ensures
            r == spec_is_start_char(c),
    {
        let u = c as u32;
        ('a' as u32 <= u && u <= 'z' as u32)
            || ('A' as u32 <= u && u <= 'Z' as u32)
            || u == '_' as u32
            || (0xC0 <= u && u <= 0xD6)
            || (0xD8 <= u && u <= 0xF6)
            || (0xF8 <= u && u <= 0x2FF)
            || (0x370 <= u && u <= 0x37D)
            || (0x37F <= u && u <= 0x1FFF)
            || (0x200C <= u && u <= 0x200D)
            || (0x2070 <= u && u <= 0x218F)
            || (0x2C00 <= u && u <= 0x2FEF)
            || (0x3001 <= u && u <= 0xD7FF)
            || (0xF900 <= u && u <= 0xFDCF)
            || (0xFDF0 <= u && u <= 0xFFFD)
            || (0x10000 <= u && u <= 0xEFFFF)
    }

    /// Returns `true` if `c` is a legal name character.
    pub fn is_valid_char(c: char) -> (r: bool)
        ensures
            r == spec_is_name_char(c),
    {
        let u = c as u32;
        Self::is_valid_start_char(c)
            || u == '-' as u32
            || u == '.' as u32
            || u == 0xB7
            || ('0' as u32 <= u && u <= '9' as u32)
            || (0x300 <= u && u <= 0x36F)
            || (0x203F <= u && u <= 0x2040)
    }

    /// Validate `value` and wrap it unchanged on success.  An illegal first
    /// character and an illegal later character are reported as distinct
    /// error kinds, and the first offending character decides.
    pub fn new_if_valid(value: &str) -> (r: Result<Self, Error>)
        ensures
            r is Ok <==> spec_valid_ncname(value@),
            r matches Ok(name) ==> name@ == value@ && name.wf(),
            (value@.len() > 0 && !spec_is_start_char(value@[0])) ==> r == Err::<Self, Error>(
                Error::NCNameIllegalFirstChar,
            ),
            (value@.len() > 0 && spec_is_start_char(value@[0]) && !spec_valid_ncname(value@))
                ==> r == Err::<Self, Error>(Error::NCNameIllegalChar),
    {
        let n = value.unicode_len();
        let mut i: usize = 0;
        while i < n
            invariant
                n == value@.len(),
                i <= n,
                i > 0 ==> spec_is_start_char(value@[0]),
                forall|j: int| 1 <= j < i ==> spec_is_name_char(value@[j]),
            decreases n - i,
        {
            let c = value.get_char(i);
            if i == 0 {
                if !Self::is_valid_start_char(c) {
                    return Err(Error::NCNameIllegalFirstChar);
                }
            } else if !Self::is_valid_char(c) {
                return Err(Error::NCNameIllegalChar);
            }
            i += 1;
        }
        Ok(NCName(value.to_owned()))
    }

    /// The wrapped text.
    pub fn as_str(&self) -> (r: &str)
        ensures
            r@ == self@,
    {
        self.0.as_str()
    }
}

impl Base for NCName {
    fn base_type() -> (r: String)
        ensures
            r@ == "String"@,
    {
        "String".to_owned()
    }

    fn ref_type() -> (r: String)
        ensures
            r@ == "str"@,
    {
        "str".to_owned()
    }
}

impl core::str::FromStr for NCName {
    type Err = Error;

    fn from_str(s: &str) -> (r: Result<Self, Error>) {
        Self::new_if_valid(s)
    }
}

/// What construction stores for a given raw text: the text itself when it
/// is a valid non-colonized name, nothing otherwise.
pub open spec fn spec_construct_ncname(s: Seq<char>) -> Option<Seq<char>> {
    if spec_valid_ncname(s) {
        Some(s)
    } else {
        None
    }
}

/// Round-trip: a name constructed from accepted text keeps that text, so
/// rendering it and constructing again accepts it and stores the same text.
pub proof fn lemma_ncname_round_trip(s: Seq<char>)
    requires
        spec_construct_ncname(s) is Some,
    ensures
        spec_construct_ncname(spec_construct_ncname(s)->Some_0) == spec_construct_ncname(s),
{
}

} // verus!

//! The integer datatype family.  Each type wraps one machine integer kind;
//! the declared minimum of the non-negative and positive variants is
//! advisory schema metadata, enforced only where the storage kind itself
//! cannot hold an out-of-range value.

use vstd::prelude::*;

use crate::error::Error;
use crate::{Base, NumberType};

verus! {

/// A signed 64-bit integer value.
#[derive(Debug, Clone)]
pub struct IntegerDatatype(i64);

impl View for IntegerDatatype {
    type V = i64;

    closed spec fn view(&self) -> i64 {
        self.0
    }
}

impl IntegerDatatype {
    /// Wrap an integer; every `i64` is a valid instance.
    pub fn from(value: i64) -> (r: Self)
        ensures
            r@ == value,
    {
        IntegerDatatype(value)
    }

    /// Wrap an integer read by reference; construction cannot fail.
    pub fn try_from(value: &i64) -> (r: Result<Self, Error>)
        ensures
            r matches Ok(v) && v@ == *value,
    {
        Ok(IntegerDatatype(*value))
    }

    /// The wrapped integer.
    pub fn value(&self) -> (r: i64)
        ensures
            r == self@,
    {
        self.0
    }
}

impl NumberType for IntegerDatatype {
    fn minimum() -> (r: Option<i64>)
        ensures
            r is None,
    {
        None
    }

    fn maximum() -> (r: Option<i64>)
        ensures
            r is None,
    {
        None
    }
}

impl Base for IntegerDatatype {
    fn base_type() -> (r: String)
        ensures
            r@ == "i64"@,
    {
        "i64".to_owned()
    }

    fn ref_type() -> (r: String)
        ensures
            r@ == "&i64"@,
    {
        "&i64".to_owned()
    }
}

/// An unsigned 64-bit integer value; the storage kind itself makes a
/// negative value unrepresentable, matching the advisory minimum of zero.
#[derive(Debug, Clone)]
pub struct NonNegativeIntegerDatatype(u64);

impl View for NonNegativeIntegerDatatype {
    type V = u64;

    closed spec fn view(&self) -> u64 {
        self.0
    }
}

impl NonNegativeIntegerDatatype {
    /// Wrap an integer; every `u64` is a valid instance.
    pub fn from(value: u64) -> (r: Self)
        ensures
            r@ == value,
    {
        NonNegativeIntegerDatatype(value)
    }

    /// Wrap an integer read by reference; construction cannot fail.
    pub fn try_from(value: &u64) -> (r: Result<Self, Error>)
        ensures
            r matches Ok(v) && v@ == *value,
    {
        Ok(NonNegativeIntegerDatatype(*value))
    }

    /// The wrapped integer.
    pub fn value(&self) -> (r: u64)
        ensures
            r == self@,
    {
        self.0
    }
}

impl NumberType for NonNegativeIntegerDatatype {
    fn minimum() -> (r: Option<i64>)
        ensures
            r == Some(0i64),
    {
        Some(0)
    }

    fn maximum() -> (r: Option<i64>)
        ensures
            r is None,
    {
        None
    }
}

impl Base for NonNegativeIntegerDatatype {
    fn base_type() -> (r: String)
        ensures
            r@ == "u64"@,
    {
        "u64".to_owned()
    }

    fn ref_type() -> (r: String)
        ensures
            r@ == "&u64"@,
    {
        "&u64".to_owned()
    }
}

/// An unsigned 64-bit integer value with an advisory minimum of one.  The
/// minimum is schema metadata only: validation does not enforce it, so a
/// zero can be wrapped, exactly as the storage kind allows.
#[derive(Debug, Clone)]
pub struct PositiveIntegerDatatype(u64);

impl View for PositiveIntegerDatatype {
    type V = u64;

    closed spec fn view(&self) -> u64 {
        self.0
    }
}

impl PositiveIntegerDatatype {
    /// Wrap an integer; every `u64` is a valid instance.
    pub fn from(value: u64) -> (r: Self)
        ensures
            r@ == value,
    {
        PositiveIntegerDatatype(value)
    }

    /// Wrap an integer read by reference; construction cannot fail.
    pub fn try_from(value: &u64) -> (r: Result<Self, Error>)
        ensures
            r matches Ok(v) && v@ == *value,
    {
        Ok(PositiveIntegerDatatype(*value))
    }

    /// The wrapped integer.
    pub fn value(&self) -> (r: u64)
        ensures
            r == self@,
    {
        self.0
    }
}

impl NumberType for PositiveIntegerDatatype {
    fn minimum() -> (r: Option<i64>)
        ensures
            r == Some(1i64),
    {
        Some(1)
    }

    fn maximum() -> (r: Option<i64>)
        ensures
            r is None,
    {
        None
    }
}

impl Base for PositiveIntegerDatatype {
    fn base_type() -> (r: String)
        ensures
            r@ == "u64"@,
    {
        "u64".to_owned()
    }

    fn ref_type() -> (r: String)
        ensures
            r@ == "&u64"@,
    {
        "&u64".to_owned()
    }
}

} // verus!

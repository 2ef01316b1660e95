use vstd::prelude::*;
use vstd::string::StringExecFns;
use crate::address_type::spec_parse_address_type;
use crate::address_type::AddressType;
use crate::error::Error;
use crate::modalias::modalias_bus;
use crate::modalias::modalias_product;
use crate::modalias::modalias_vendor;
use crate::modalias::modalias_version;
use crate::modalias::valid_modalias_chars;
use crate::modalias::Modalias;

verus! {

/// A variant-typed property value, as the bus's generic property
/// sub-protocol carries it, restricted to the shapes the adapter
/// interface uses: string, unsigned 32-bit integer, boolean, and
/// sequence of strings.
#[derive(Debug, Clone, PartialEq, Eq)]
pub enum Variant {
    /// A string value.
    Str(String),
    /// An unsigned 32-bit integer value.
    U32(u32),
    /// A boolean value.
    Bool(bool),
    /// A sequence-of-strings value.
    StrList(Vec<String>),
}

impl Variant {
    /// Decodes a reply expected to hold a string.
    pub fn into_string(self) -> (r: Result<String, Error>)
        ensures
            self matches Variant::Str(s) ==> r == Ok::<String, Error>(s),
            !(self is Str) ==> (r matches Err(e) && e is Parse),
    {
        match self {
            Variant::Str(s) => Ok(s),
            _ => Err(Error::Parse(String::from_str("expected a string value"))),
        }
    }

    /// Decodes a reply expected to hold an unsigned 32-bit integer.
    pub fn into_u32(self) -> (r: Result<u32, Error>)
        ensures
            self matches Variant::U32(v) ==> r == Ok::<u32, Error>(v),
            !(self is U32) ==> (r matches Err(e) && e is Parse),
    {
        match self {
            Variant::U32(v) => Ok(v),
            _ => Err(Error::Parse(String::from_str("expected an integer value"))),
        }
    }

    /// Decodes a reply expected to hold a boolean.
    pub fn into_bool(self) -> (r: Result<bool, Error>)
        ensures
            self matches Variant::Bool(v) ==> r == Ok::<bool, Error>(v),
            !(self is Bool) ==> (r matches Err(e) && e is Parse),
    {
        match self {
            Variant::Bool(v) => Ok(v),
            _ => Err(Error::Parse(String::from_str("expected a boolean value"))),
        }
    }

    /// Decodes a reply expected to hold a sequence of strings.
    pub fn into_string_list(self) -> (r: Result<Vec<String>, Error>)
        ensures
            self matches Variant::StrList(v) ==> r == Ok::<Vec<String>, Error>(v),
            !(self is StrList) ==> (r matches Err(e) && e is Parse),
    {
        match self {
            Variant::StrList(v) => Ok(v),
            _ => Err(Error::Parse(String::from_str("expected a list of strings"))),
        }
    }

    /// Decodes a reply expected to hold an address type: a string that is
    /// either `public` or `random`.
    pub fn into_address_type(self) -> (r: Result<AddressType, Error>)
        ensures
            self matches Variant::Str(s) ==> (match spec_parse_address_type(s@) {
                Some(t) => r == Ok::<AddressType, Error>(t),
                None => r matches Err(e) && e is Parse,
            }),
            !(self is Str) ==> (r matches Err(e) && e is Parse),
    {
        match self {
            Variant::Str(s) => AddressType::parse(s.as_str()),
            _ => Err(Error::Parse(String::from_str("expected a string value"))),
        }
    }

    /// Decodes a reply expected to hold a modalias string.
    pub fn into_modalias(self) -> (r: Result<Modalias, Error>)
        ensures
            self matches Variant::Str(s) ==> (valid_modalias_chars(s@) ==> (r matches Ok(m)
                && m.bus@ == modalias_bus(s@) && m.vendor as int == modalias_vendor(s@)
                && m.product as int == modalias_product(s@) && m.version as int
                == modalias_version(s@))),
            self matches Variant::Str(s) ==> (!valid_modalias_chars(s@) ==> (r matches Err(e)
                && e is Parse)),
            !(self is Str) ==> (r matches Err(e) && e is Parse),
    {
        match self {
            Variant::Str(s) => Modalias::parse(s.as_str()),
            _ => Err(Error::Parse(String::from_str("expected a string value"))),
        }
    }
}

} // verus!

use vstd::prelude::*;
use vstd::string::StringExecFns;
use crate::error::Error;
use crate::text::str_eq;

verus! {

/// The address type of an adapter, as the daemon reports it.  Dual-mode
/// and BR/EDR-only adapters default to the public kind; single-mode LE
/// adapters may report either.
#[derive(Debug, Clone, Copy, PartialEq, Eq, Structural)]
pub enum AddressType {
    /// A public hardware address.
    Public,
    /// A random (privacy) address.
    Random,
}

/// The short string the daemon uses for each address type.
pub open spec fn address_type_chars(t: AddressType) -> Seq<char> {
    match t {
        AddressType::Public => "public"@,
        AddressType::Random => "random"@,
    }
}

/// What a short string reply decodes to: one of the two variants, or
/// nothing for any other string.
pub open spec fn spec_parse_address_type(s: Seq<char>) -> Option<AddressType> {
    if s == address_type_chars(AddressType::Public) {
        Some(AddressType::Public)
    } else if s == address_type_chars(AddressType::Random) {
        Some(AddressType::Random)
    } else {
        None
    }
}

impl AddressType {
    /// The daemon's textual form of this variant.
    pub fn to_str(&self) -> (r: &'static str)
        ensures
            r@ == address_type_chars(*self),
    {
        match self {
            AddressType::Public => "public",
            AddressType::Random => "random",
        }
    }

    /// Decodes the daemon's short string reply.  Exactly `public` and
    /// `random` are accepted; any other string yields a parse error.
    pub fn parse(s: &str) -> (r: Result<AddressType, Error>)
        ensures
            spec_parse_address_type(s@) matches Some(t) ==> r == Ok::<AddressType, Error>(t),
            spec_parse_address_type(s@) is None ==> (r matches Err(e) && e is Parse),
    {
        if str_eq(s, "public") {
            Ok(AddressType::Public)
        } else if str_eq(s, "random") {
            Ok(AddressType::Random)
        } else {
            Err(Error::Parse(String::from_str("malformed address type")))
        }
    }
}

/// Law: the textual form of each address type parses back to the same
/// variant.  Together with the contract of `AddressType::parse`, which
/// rejects every string other than the two textual forms, this is the
/// round trip of address-type parsing.
pub proof fn lemma_address_type_round_trip(t: AddressType)
    ensures
        spec_parse_address_type(address_type_chars(t)) == Some(t),
{
    reveal_strlit("public");
    reveal_strlit("random");
    assert("public"@[0] != "random"@[0]);
}

} // verus!

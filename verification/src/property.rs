use vstd::prelude::*;

verus! {

/// The property catalogue of the adapter interface.  Each variant maps
/// one-to-one to a named remote property.
#[derive(Debug, Clone, Copy, PartialEq, Eq, Structural)]
pub enum Property {
    /// The adapter's hardware address (read-only string).
    Address,
    /// The adapter's address type (read-only, `public` or `random`).
    AddressType,
    /// The system name, a pretty-hostname fallback (read-only string).
    SystemName,
    /// The friendly name; an empty string resets it to the system name
    /// (read/write string).
    Alias,
    /// The device-class bitmask (read-only integer).
    Class,
    /// Whether the adapter is switched on; resets to false when the
    /// adapter is replugged (read/write boolean).
    Powered,
    /// Whether the adapter is visible; auto-resets after the discoverable
    /// timeout if that is nonzero, and cannot be set while the adapter is
    /// off (read/write boolean).
    Discoverable,
    /// Whether incoming pairing requests are accepted (read/write
    /// boolean, default true).
    Pairable,
    /// Pairable timeout in seconds, zero for never (read/write integer).
    PairableTimeout,
    /// Discoverable timeout in seconds, zero for never (read/write
    /// integer, default 180).
    DiscoverableTimeout,
    /// Whether a discovery procedure is active (read-only boolean).
    Discovering,
    /// The 128-bit service UUID strings (read-only list of strings).
    Uuids,
    /// The modalias device-identification record; absent on adapters
    /// without DMI/ACPI data (read-only, parsed from a string).
    Modalias,
}

/// The name under which the daemon exposes each property.
pub open spec fn property_name_chars(p: Property) -> Seq<char> {
    match p {
        Property::Address => "Address"@,
        Property::AddressType => "AddressType"@,
        Property::SystemName => "Name"@,
        Property::Alias => "Alias"@,
        Property::Class => "Class"@,
        Property::Powered => "Powered"@,
        Property::Discoverable => "Discoverable"@,
        Property::Pairable => "Pairable"@,
        Property::PairableTimeout => "PairableTimeout"@,
        Property::DiscoverableTimeout => "DiscoverableTimeout"@,
        Property::Discovering => "Discovering"@,
        Property::Uuids => "UUIDs"@,
        Property::Modalias => "Modalias"@,
    }
}

impl Property {
    /// The remote property name used on the bus.
    pub fn dbus_name(&self) -> (r: &'static str)
        ensures
            r@ == property_name_chars(*self),
    {
        match self {
            Property::Address => "Address",
            Property::AddressType => "AddressType",
            Property::SystemName => "Name",
            Property::Alias => "Alias",
            Property::Class => "Class",
            Property::Powered => "Powered",
            Property::Discoverable => "Discoverable",
            Property::Pairable => "Pairable",
            Property::PairableTimeout => "PairableTimeout",
            Property::DiscoverableTimeout => "DiscoverableTimeout",
            Property::Discovering => "Discovering",
            Property::Uuids => "UUIDs",
            Property::Modalias => "Modalias",
        }
    }

    /// The mutable properties: exactly those a set call may target.
    pub open spec fn spec_writable(self) -> bool {
        match self {
            Property::Alias => true,
            Property::Powered => true,
            Property::Discoverable => true,
            Property::Pairable => true,
            Property::PairableTimeout => true,
            Property::DiscoverableTimeout => true,
            _ => false,
        }
    }

    /// Whether a set call may target this property.
    pub fn writable(&self) -> (r: bool)
        ensures
            r == self.spec_writable(),
    {
        match self {
            Property::Alias => true,
            Property::Powered => true,
            Property::Discoverable => true,
            Property::Pairable => true,
            Property::PairableTimeout => true,
            Property::DiscoverableTimeout => true,
            _ => false,
        }
    }
}

} // verus!

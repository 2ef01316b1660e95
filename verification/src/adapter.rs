use vstd::prelude::*;
use vstd::string::StrSliceExecFns;
use vstd::string::StringExecFns;
use crate::address::address_chars;
use crate::address::parsed_address;
use crate::address::valid_address_chars;
use crate::address::Address;
use crate::address_type::address_type_chars;
use crate::address_type::AddressType;
use crate::error::Error;
use crate::text::replace_underscores;
use crate::text::str_eq;
use crate::text::str_starts_with;
use crate::text::underscores_to_colons;

verus! {

/// Well-known bus name of the daemon.
pub const SERVICE_NAME: &'static str = "org.bluez";

/// Interface implemented by every adapter object.
pub const INTERFACE: &'static str = "org.bluez.Adapter1";

/// Interface implemented by every device object.
pub const DEVICE_INTERFACE: &'static str = "org.bluez.Device1";

/// Root prefix under which adapter objects live.
pub const PATH_PREFIX: &'static str = "/org/bluez/";

/// The characters of the root prefix of adapter object paths.
pub open spec fn spec_prefix() -> Seq<char> {
    "/org/bluez/"@
}

/// The token that separates an adapter path from the address segment of
/// its child device objects.
pub open spec fn spec_device_token() -> Seq<char> {
    "/dev_"@
}

/// The characters of the device interface name.
pub open spec fn spec_device_interface() -> Seq<char> {
    "org.bluez.Device1"@
}

/// A handle on one remote adapter object: the adapter's short name and
/// the object path derived from it.  Immutable after construction and
/// cheap to duplicate; it holds no remote state.
pub struct Adapter {
    name: String,
    path: String,
}

impl Adapter {
    /// The adapter's short name, for example `hci0`.
    pub closed spec fn spec_name(self) -> Seq<char> {
        self.name@
    }

    /// The adapter's object path.
    pub closed spec fn spec_path(self) -> Seq<char> {
        self.path@
    }

    /// The handle's one invariant: its path is the well-known prefix
    /// followed by its name.
    pub open spec fn wf(self) -> bool {
        self.spec_path() == spec_prefix() + self.spec_name()
    }

    /// Builds the handle for the adapter with the given short name; the
    /// object path is the well-known prefix followed by the name.  Pure
    /// local construction: no bus traffic, no failure.
    pub fn new(name: &str) -> (r: Adapter)
        ensures
            r.spec_name() == name@,
            r.spec_path() == spec_prefix() + name@,
            r.wf(),
    {
        let mut path = String::from_str("/org/bluez/");
        path.append(name);
        Adapter { name: String::from_str(name), path }
    }

    /// The adapter's short name, for example `hci0`.
    pub fn name(&self) -> (r: &str)
        ensures
            r@ == self.spec_name(),
    {
        self.name.as_str()
    }

    /// The adapter's object path, for example `/org/bluez/hci0`.
    pub fn dbus_path(&self) -> (r: &str)
        ensures
            r@ == self.spec_path(),
    {
        self.path.as_str()
    }

    /// The prefix that every child device object path of this adapter
    /// bears: the adapter path followed by the child token.
    pub fn device_path_prefix(&self) -> (r: String)
        ensures
            r@ == self.spec_path() + spec_device_token(),
    {
        let mut p = self.path.clone();
        p.append("/dev_");
        p
    }
}

impl Clone for Adapter {
    /// Duplicates the handle.  The copy names the same remote object and
    /// is an independent value.
    fn clone(&self) -> (r: Self)
        ensures
            r == *self,
    {
        Adapter { name: self.name.clone(), path: self.path.clone() }
    }
}

/// Law: two handles built with the same adapter name derive equal object
/// paths; beyond that identity they share no state.
pub proof fn lemma_same_name_same_path(a: Adapter, b: Adapter)
    requires
        a.wf(),
        b.wf(),
        a.spec_name() == b.spec_name(),
    ensures
        a.spec_path() == b.spec_path(),
{
}

/// One entry of the daemon's managed-object tree: an object path and the
/// names of the interfaces that object implements.
pub struct ManagedObject {
    /// The object path.
    pub path: String,
    /// The names of the interfaces the object implements.
    pub interfaces: Vec<String>,
}

/// Whether an entry implements the device interface.
pub open spec fn has_device_interface(o: ManagedObject) -> bool {
    exists|i: int|
        0 <= i < o.interfaces@.len() && (#[trigger] o.interfaces@[i])@ == spec_device_interface()
}

/// Whether an entry counts for the address scan: its path starts with
/// the given prefix and it implements the device interface.
pub open spec fn object_matches(prefix: Seq<char>, o: ManagedObject) -> bool {
    prefix.is_prefix_of(o.path@) && has_device_interface(o)
}

/// The trailing path segment of a matching entry, with underscores
/// turned back into colons.
pub open spec fn object_segment(prefix: Seq<char>, o: ManagedObject) -> Seq<char> {
    underscores_to_colons(o.path@.skip(prefix.len() as int))
}

/// The octet sequences of the addresses a scan returns.
pub open spec fn octets_of(addrs: Seq<Address>) -> Seq<Seq<u8>> {
    addrs.map_values(|a: Address| a@)
}

/// The all-or-nothing result of the address scan over a managed-objects
/// reply: the parsed octets of every matching entry in reply order, or
/// nothing if the trailing segment of any matching entry is not a
/// canonical address.
pub open spec fn scan_addresses(prefix: Seq<char>, objs: Seq<ManagedObject>) -> Option<
    Seq<Seq<u8>>,
>
    decreases objs.len(),
{
    if objs.len() == 0 {
        Some(Seq::empty())
    } else {
        let rest = scan_addresses(prefix, objs.drop_first());
        if object_matches(prefix, objs[0]) {
            if valid_address_chars(object_segment(prefix, objs[0])) {
                match rest {
                    Some(r) => Some(seq![parsed_address(object_segment(prefix, objs[0]))] + r),
                    None => None,
                }
            } else {
                None
            }
        } else {
            rest
        }
    }
}

/// Whether an entry implements the device interface.
fn implements_device_interface(o: &ManagedObject) -> (r: bool)
    ensures
        r == has_device_interface(*o),
{
    let n = o.interfaces.len();
    let mut i: usize = 0;
    while i < n
        invariant
            n == o.interfaces@.len(),
            i <= n,
            forall|j: int|
                0 <= j < i ==> (#[trigger] o.interfaces@[j])@ != spec_device_interface(),
        decreases n - i,
    {
        if str_eq(o.interfaces[i].as_str(), "org.bluez.Device1") {
            proof {
                assert((o.interfaces@[i as int])@ == spec_device_interface());
            }
            return true;
        }
        i += 1;
    }
    false
}

impl Adapter {
    /// Extracts the hardware addresses of this adapter's child device
    /// objects from a managed-objects reply.  An entry counts exactly
    /// when its path starts with this adapter's path followed by the
    /// child token and it implements the device interface; its trailing
    /// path segment, with underscores replaced by colons, must then be a
    /// canonical address.  The scan is all-or-nothing: one malformed
    /// matching segment fails the whole call with a parse error.
    /// Addresses come back in reply order; no order is imposed.
    pub fn device_addresses(&self, objects: &Vec<ManagedObject>) -> (r: Result<Vec<Address>, Error>)
        ensures
            r matches Ok(addrs) ==> scan_addresses(
                self.spec_path() + spec_device_token(),
                objects@,
            ) == Some(octets_of(addrs@)),
            r matches Err(e) ==> scan_addresses(self.spec_path() + spec_device_token(), objects@)
                is None && e is Parse,
    {
        let prefix = self.device_path_prefix();
        let ghost pfx: Seq<char> = prefix@;
        let plen = prefix.as_str().unicode_len();
        let mut addrs: Vec<Address> = Vec::new();
        let n = objects.len();
        let mut i: usize = 0;
        proof {
            assert(objects@.skip(0) =~= objects@);
            assert(octets_of(addrs@) =~= Seq::<Seq<u8>>::empty());
            match scan_addresses(pfx, objects@) {
                Some(rest) => {
                    assert(octets_of(addrs@) + rest =~= rest);
                },
                None => {},
            }
        }
        while i < n
            invariant
                n == objects@.len(),
                i <= n,
                pfx == self.spec_path() + spec_device_token(),
                prefix@ == pfx,
                plen == pfx.len(),
                match scan_addresses(pfx, objects@.skip(i as int)) {
                    Some(rest) => scan_addresses(pfx, objects@) == Some(octets_of(addrs@) + rest),
                    None => scan_addresses(pfx, objects@) is None,
                },
            decreases n - i,
        {
            let o = &objects[i];
            proof {
                let sk = objects@.skip(i as int);
                assert(sk.len() == n - i);
                assert(sk[0] == objects@[i as int]);
                assert(sk.drop_first() =~= objects@.skip(i as int + 1));
            }
            if str_starts_with(o.path.as_str(), prefix.as_str()) && implements_device_interface(
                o,
            ) {
                let path_len = o.path.as_str().unicode_len();
                let segment = o.path.as_str().substring_char(plen, path_len);
                proof {
                    assert(segment@ =~= o.path@.skip(pfx.len() as int));
                }
                let colon_form = replace_underscores(segment);
                match Address::parse(colon_form.as_str()) {
                    Ok(a) => {
                        let ghost before = addrs@;
                        addrs.push(a);
                        proof {
                            assert(octets_of(addrs@) =~= octets_of(before).push(a@));
                            assert(octets_of(before).push(a@) =~= octets_of(before) + seq![a@]);
                            let rest_i = scan_addresses(pfx, objects@.skip(i as int));
                            let rest_next = scan_addresses(pfx, objects@.skip(i as int + 1));
                            match rest_next {
                                Some(rn) => {
                                    assert(rest_i == Some(seq![a@] + rn));
                                    assert(octets_of(before) + (seq![a@] + rn) =~= octets_of(
                                        addrs@,
                                    ) + rn);
                                },
                                None => {},
                            }
                        }
                    },
                    Err(_) => {
                        return Err(
                            Error::Parse(String::from_str("malformed address in device path")),
                        );
                    },
                }
            }
            i += 1;
        }
        proof {
            assert(objects@.skip(n as int) =~= Seq::<ManagedObject>::empty());
            assert(octets_of(addrs@) + Seq::<Seq<u8>>::empty() =~= octets_of(addrs@));
        }
        Ok(addrs)
    }
}

/// Builds the filter map handed to the connect procedure: the mandatory
/// `Address` entry with the canonical textual address, and an
/// `AddressType` entry exactly when the caller supplies one.  When no
/// address type is given the key is absent altogether, which lets the
/// daemon default to a classic connection attempt.
pub fn connect_device_filter(address: &Address, address_type: Option<AddressType>) -> (r: Vec<
    (String, String),
>)
    ensures
        address_type is None ==> r@.len() == 1,
        address_type is Some ==> r@.len() == 2,
        (r@[0].0)@ == "Address"@,
        (r@[0].1)@ == address_chars(address@),
        address_type matches Some(t) ==> (r@[1].0)@ == "AddressType"@ && (r@[1].1)@
            == address_type_chars(t),
        address_type is None ==> forall|k: int|
            0 <= k < r@.len() ==> (#[trigger] r@[k].0)@ != "AddressType"@,
{
    let mut r: Vec<(String, String)> = Vec::new();
    r.push((String::from_str("Address"), address.to_string()));
    match address_type {
        Some(t) => {
            r.push((String::from_str("AddressType"), String::from_str(t.to_str())));
        },
        None => {
            proof {
                reveal_strlit("Address");
                reveal_strlit("AddressType");
                assert(("Address"@).len() != ("AddressType"@).len());
            }
        },
    }
    r
}

} // verus!

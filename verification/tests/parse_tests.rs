use bluez_adapter::address::Address;
use bluez_adapter::address_type::AddressType;
use bluez_adapter::error::Error;
use bluez_adapter::modalias::Modalias;
use bluez_adapter::property::Property;
use bluez_adapter::text::replace_underscores;
use bluez_adapter::text::str_eq;
use bluez_adapter::text::str_starts_with;
use bluez_adapter::variant::Variant;

#[test]
fn address_type_round_trips() {
    assert_eq!(AddressType::parse("public").unwrap(), AddressType::Public);
    assert_eq!(AddressType::parse("random").unwrap(), AddressType::Random);
    assert_eq!(AddressType::Public.to_str(), "public");
    assert_eq!(AddressType::Random.to_str(), "random");
    assert_eq!(
        AddressType::parse(AddressType::Public.to_str()).unwrap(),
        AddressType::Public
    );
    assert_eq!(
        AddressType::parse(AddressType::Random.to_str()).unwrap(),
        AddressType::Random
    );
}

#[test]
fn address_type_rejects_other_strings() {
    assert!(AddressType::parse("Public").unwrap_err().is_parse());
    assert!(AddressType::parse("").unwrap_err().is_parse());
    assert!(AddressType::parse("randomx").unwrap_err().is_parse());
}

#[test]
fn modalias_decodes_the_usb_example() {
    let m = Modalias::parse("usb:v1D6Bp0246d053F").unwrap();
    assert_eq!(m.bus, "usb");
    assert_eq!(m.vendor, 0x1D6B);
    assert_eq!(m.product, 0x0246);
    assert_eq!(m.version, 0x053F);
}

#[test]
fn modalias_accepts_lowercase_digits() {
    let m = Modalias::parse("pci:v1d6bp0246d053f").unwrap();
    assert_eq!(m.bus, "pci");
    assert_eq!(m.vendor, 0x1D6B);
    assert_eq!(m.product, 0x0246);
    assert_eq!(m.version, 0x053F);
}

#[test]
fn modalias_rejects_missing_segments() {
    assert!(Modalias::parse("usb:1D6Bp0246d053F").unwrap_err().is_parse());
    assert!(Modalias::parse("usb:v1D6B0246d053F").unwrap_err().is_parse());
    assert!(Modalias::parse("usb:v1D6Bp0246053F").unwrap_err().is_parse());
    assert!(Modalias::parse("usb").unwrap_err().is_parse());
    assert!(Modalias::parse("").unwrap_err().is_parse());
    assert!(Modalias::parse("usb:v1D6Bp0246d053").unwrap_err().is_parse());
    assert!(Modalias::parse("usb:v1G6Bp0246d053F").unwrap_err().is_parse());
}

#[test]
fn address_parses_canonical_form() {
    let a = Address::parse("AA:BB:CC:DD:EE:FF").unwrap();
    assert_eq!(a, Address::new(0xAA, 0xBB, 0xCC, 0xDD, 0xEE, 0xFF));
    let b = Address::parse("00:1a:7d:da:71:13").unwrap();
    assert_eq!(b, Address::new(0x00, 0x1A, 0x7D, 0xDA, 0x71, 0x13));
}

#[test]
fn address_formats_uppercase_and_round_trips() {
    let a = Address::new(0x00, 0x1A, 0x7D, 0xDA, 0x71, 0x13);
    assert_eq!(a.to_string(), "00:1A:7D:DA:71:13");
    assert_eq!(Address::parse(&a.to_string()).unwrap(), a);
}

#[test]
fn address_rejects_malformed_strings() {
    assert!(Address::parse("").unwrap_err().is_parse());
    assert!(Address::parse("AA:BB:CC:DD:EE").unwrap_err().is_parse());
    assert!(Address::parse("AA:BB:CC:DD:EE:F").unwrap_err().is_parse());
    assert!(Address::parse("AA:BB:CC:DD:EE:FF:").unwrap_err().is_parse());
    assert!(Address::parse("AA-BB-CC-DD-EE-FF").unwrap_err().is_parse());
    assert!(Address::parse("AG:BB:CC:DD:EE:FF").unwrap_err().is_parse());
    assert!(Address::parse("AA:BB:CC:DD:EE:FG").unwrap_err().is_parse());
}

#[test]
fn underscores_become_colons() {
    assert_eq!(replace_underscores("AA_BB_CC_DD_EE_FF"), "AA:BB:CC:DD:EE:FF");
    assert_eq!(replace_underscores(""), "");
    assert_eq!(replace_underscores("no_change:kept"), "no:change:kept");
}

#[test]
fn text_helpers_compare_characters() {
    assert!(str_eq("abc", "abc"));
    assert!(!str_eq("abc", "abd"));
    assert!(!str_eq("abc", "abcd"));
    assert!(str_starts_with("/org/bluez/hci0/dev_X", "/org/bluez/hci0/dev_"));
    assert!(!str_starts_with("/org/bluez/hci1", "/org/bluez/hci0"));
    assert!(!str_starts_with("/org", "/org/bluez/"));
}

#[test]
fn variant_decoders_accept_their_shape() {
    assert_eq!(
        Variant::Str(String::from("hci0")).into_string().unwrap(),
        "hci0"
    );
    assert_eq!(Variant::U32(180).into_u32().unwrap(), 180);
    assert!(Variant::Bool(true).into_bool().unwrap());
    assert_eq!(
        Variant::StrList(vec![String::from("0000110e-0000-1000-8000-00805f9b34fb")])
            .into_string_list()
            .unwrap(),
        vec![String::from("0000110e-0000-1000-8000-00805f9b34fb")]
    );
    assert_eq!(
        Variant::Str(String::from("random")).into_address_type().unwrap(),
        AddressType::Random
    );
    let m = Variant::Str(String::from("usb:v1D6Bp0246d053F"))
        .into_modalias()
        .unwrap();
    assert_eq!(m.vendor, 0x1D6B);
}

#[test]
fn variant_decoders_reject_other_shapes() {
    assert!(Variant::U32(1).into_string().unwrap_err().is_parse());
    assert!(Variant::Str(String::from("1")).into_u32().unwrap_err().is_parse());
    assert!(Variant::U32(1).into_bool().unwrap_err().is_parse());
    assert!(Variant::Bool(false).into_string_list().unwrap_err().is_parse());
    assert!(Variant::Bool(false).into_address_type().unwrap_err().is_parse());
    assert!(
        Variant::Str(String::from("neither")).into_address_type().unwrap_err().is_parse()
    );
    assert!(Variant::U32(7).into_modalias().unwrap_err().is_parse());
}

#[test]
fn property_names_and_writability() {
    assert_eq!(Property::Address.dbus_name(), "Address");
    assert_eq!(Property::AddressType.dbus_name(), "AddressType");
    assert_eq!(Property::SystemName.dbus_name(), "Name");
    assert_eq!(Property::Alias.dbus_name(), "Alias");
    assert_eq!(Property::Class.dbus_name(), "Class");
    assert_eq!(Property::Powered.dbus_name(), "Powered");
    assert_eq!(Property::Discoverable.dbus_name(), "Discoverable");
    assert_eq!(Property::Pairable.dbus_name(), "Pairable");
    assert_eq!(Property::PairableTimeout.dbus_name(), "PairableTimeout");
    assert_eq!(Property::DiscoverableTimeout.dbus_name(), "DiscoverableTimeout");
    assert_eq!(Property::Discovering.dbus_name(), "Discovering");
    assert_eq!(Property::Uuids.dbus_name(), "UUIDs");
    assert_eq!(Property::Modalias.dbus_name(), "Modalias");
    assert!(Property::Alias.writable());
    assert!(Property::Powered.writable());
    assert!(Property::Discoverable.writable());
    assert!(Property::Pairable.writable());
    assert!(Property::PairableTimeout.writable());
    assert!(Property::DiscoverableTimeout.writable());
    assert!(!Property::Address.writable());
    assert!(!Property::AddressType.writable());
    assert!(!Property::SystemName.writable());
    assert!(!Property::Class.writable());
    assert!(!Property::Discovering.writable());
    assert!(!Property::Uuids.writable());
    assert!(!Property::Modalias.writable());
}

#[test]
fn error_kinds_and_messages() {
    let remote = Error::RemoteCall(String::from("org.bluez.Error.Failed"));
    assert!(remote.is_remote_call());
    assert!(!remote.is_parse());
    assert_eq!(remote.message(), "org.bluez.Error.Failed");
    let parse = Error::Parse(String::from("malformed address type"));
    assert!(parse.is_parse());
    assert!(!parse.is_remote_call());
    assert_eq!(parse.message(), "malformed address type");
}

use bluez_adapter::adapter::connect_device_filter;
use bluez_adapter::adapter::Adapter;
use bluez_adapter::adapter::ManagedObject;
use bluez_adapter::adapter::DEVICE_INTERFACE;
use bluez_adapter::adapter::INTERFACE;
use bluez_adapter::adapter::PATH_PREFIX;
use bluez_adapter::adapter::SERVICE_NAME;
use bluez_adapter::address::Address;
use bluez_adapter::address_type::AddressType;

#[test]
fn adapter_path_derivation() {
    let a = Adapter::new("hci0");
    assert_eq!(a.name(), "hci0");
    assert_eq!(a.dbus_path(), "/org/bluez/hci0");
    assert_eq!(a.device_path_prefix(), "/org/bluez/hci0/dev_");
}

#[test]
fn well_known_names() {
    assert_eq!(SERVICE_NAME, "org.bluez");
    assert_eq!(INTERFACE, "org.bluez.Adapter1");
    assert_eq!(DEVICE_INTERFACE, "org.bluez.Device1");
    assert_eq!(PATH_PREFIX, "/org/bluez/");
}

#[test]
fn same_name_yields_equal_paths() {
    let a = Adapter::new("hci0");
    let b = Adapter::new("hci0");
    assert_eq!(a.dbus_path(), b.dbus_path());
    let c = a.clone();
    assert_eq!(c.dbus_path(), a.dbus_path());
    assert_eq!(c.name(), "hci0");
    drop(a);
    assert_eq!(b.dbus_path(), "/org/bluez/hci0");
}

#[test]
fn scan_returns_exactly_the_matching_device() {
    let a = Adapter::new("hci0");
    let objects = vec![
        ManagedObject {
            path: String::from("/org/bluez/hci0/dev_AA_BB_CC_DD_EE_FF"),
            interfaces: vec![String::from("org.bluez.Device1")],
        },
        ManagedObject {
            path: String::from("/org/bluez/hci0/unrelated_obj"),
            interfaces: vec![String::from("org.bluez.GattManager1")],
        },
    ];
    let addrs = a.device_addresses(&objects).unwrap();
    assert_eq!(addrs, vec![Address::new(0xAA, 0xBB, 0xCC, 0xDD, 0xEE, 0xFF)]);
}

#[test]
fn scan_skips_prefixed_object_without_device_interface() {
    let a = Adapter::new("hci0");
    let objects = vec![ManagedObject {
        path: String::from("/org/bluez/hci0/dev_not_an_address"),
        interfaces: vec![String::from("org.bluez.Battery1")],
    }];
    let addrs = a.device_addresses(&objects).unwrap();
    assert!(addrs.is_empty());
}

#[test]
fn scan_is_all_or_nothing() {
    let a = Adapter::new("hci0");
    let objects = vec![
        ManagedObject {
            path: String::from("/org/bluez/hci0/dev_AA_BB_CC_DD_EE_FF"),
            interfaces: vec![String::from("org.bluez.Device1")],
        },
        ManagedObject {
            path: String::from("/org/bluez/hci0/dev_garbage"),
            interfaces: vec![String::from("org.bluez.Device1")],
        },
    ];
    let err = a.device_addresses(&objects).unwrap_err();
    assert!(err.is_parse());
}

#[test]
fn scan_keeps_reply_order() {
    let a = Adapter::new("hci0");
    let objects = vec![
        ManagedObject {
            path: String::from("/org/bluez/hci0/dev_11_22_33_44_55_66"),
            interfaces: vec![String::from("org.bluez.Device1")],
        },
        ManagedObject {
            path: String::from("/org/bluez/hci0/dev_AA_BB_CC_DD_EE_FF"),
            interfaces: vec![
                String::from("org.freedesktop.DBus.Properties"),
                String::from("org.bluez.Device1"),
            ],
        },
    ];
    let addrs = a.device_addresses(&objects).unwrap();
    assert_eq!(
        addrs,
        vec![
            Address::new(0x11, 0x22, 0x33, 0x44, 0x55, 0x66),
            Address::new(0xAA, 0xBB, 0xCC, 0xDD, 0xEE, 0xFF),
        ]
    );
}

#[test]
fn scan_ignores_other_adapters() {
    let a = Adapter::new("hci0");
    let objects = vec![ManagedObject {
        path: String::from("/org/bluez/hci1/dev_AA_BB_CC_DD_EE_FF"),
        interfaces: vec![String::from("org.bluez.Device1")],
    }];
    let addrs = a.device_addresses(&objects).unwrap();
    assert!(addrs.is_empty());
}

#[test]
fn connect_filter_without_type_omits_the_key() {
    let addr = Address::new(0xAA, 0xBB, 0xCC, 0xDD, 0xEE, 0xFF);
    let f = connect_device_filter(&addr, None);
    assert_eq!(f.len(), 1);
    assert_eq!(f[0].0, "Address");
    assert_eq!(f[0].1, "AA:BB:CC:DD:EE:FF");
    assert!(f.iter().all(|kv| kv.0 != "AddressType"));
}

#[test]
fn connect_filter_with_type_includes_it() {
    let addr = Address::new(0x00, 0x1A, 0x7D, 0xDA, 0x71, 0x13);
    let f = connect_device_filter(&addr, Some(AddressType::Public));
    assert_eq!(f.len(), 2);
    assert_eq!(f[0].0, "Address");
    assert_eq!(f[0].1, "00:1A:7D:DA:71:13");
    assert_eq!(f[1].0, "AddressType");
    assert_eq!(f[1].1, "public");
    let g = connect_device_filter(&addr, Some(AddressType::Random));
    assert_eq!(g[1].1, "random");
}

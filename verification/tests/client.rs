use std::collections::HashMap;

use qmk_xap::client::{
    device_description, HidDeviceDescription, XapClient, XapClientError, XAP_USAGE, XAP_USAGE_PAGE,
};
use qmk_xap::constants::lighting::LightingEffects;
use qmk_xap::constants::XapConstants;
use qmk_xap::device::{HidIdentity, XapDevice, XapEvent};

fn constants() -> XapConstants {
    XapConstants::new(
        HashMap::new(),
        LightingEffects::empty(),
        LightingEffects::empty(),
        LightingEffects::empty(),
    )
}

fn interface(path: &str, usage_page: u16, usage: u16) -> HidIdentity {
    HidIdentity {
        path: path.as_bytes().to_vec(),
        vendor_id: 0xFEED,
        product_id: 0x6060,
        usage_page,
        usage,
    }
}

#[test]
fn only_xap_interfaces_are_kept() {
    let found = vec![
        interface("a", XAP_USAGE_PAGE, XAP_USAGE),
        interface("b", 0x0001, 0x0006),
        interface("c", XAP_USAGE_PAGE, 0x0061),
        interface("d", XAP_USAGE_PAGE, XAP_USAGE),
    ];
    let xap = XapClient::xap_interfaces(found);
    assert_eq!(xap.len(), 2);
    assert_eq!(xap[0].path, b"a".to_vec());
    assert_eq!(xap[1].path, b"d".to_vec());
    assert!(XapClient::is_xap_interface(&interface("x", 0xFF51, 0x0058)));
    assert!(!XapClient::is_xap_interface(&interface("x", 0xFF60, 0x0061)));
}

#[test]
fn devices_come_and_go() {
    let mut client = XapClient::new(constants());
    let a = interface("a", XAP_USAGE_PAGE, XAP_USAGE);
    let b = interface("b", XAP_USAGE_PAGE, XAP_USAGE);
    let da = XapDevice::new(a.clone(), client.constants());
    let db = XapDevice::new(b.clone(), client.constants());
    let (ida, idb) = (da.id(), db.id());
    assert!(matches!(client.add_device(da), XapEvent::NewDevice { id } if id == ida));
    assert!(matches!(client.add_device(db), XapEvent::NewDevice { id } if id == idb));
    assert_eq!(client.device_count(), 2);
    assert!(client.is_known(&a));
    assert!(!client.is_known(&interface("c", XAP_USAGE_PAGE, XAP_USAGE)));
    assert_eq!(client.device_index(idb), Ok(1));
    assert_eq!(client.device(1).id(), idb);

    let events = client.remove_missing(&vec![b.clone()]);
    assert_eq!(events.len(), 1);
    assert!(matches!(events[0], XapEvent::RemovedDevice { id } if id == ida));
    assert_eq!(client.device_count(), 1);
    assert_eq!(client.device_index(ida), Err(XapClientError::UnknownDevice(ida)));
    assert_eq!(client.device_index(idb), Ok(0));
    assert!(client.remove_missing(&vec![b]).is_empty());
    client.device_mut(0).set_secure_status(qmk_xap::status::XapSecureStatus::Unlocked);
    assert_eq!(
        client.device(0).secure_status(),
        qmk_xap::status::XapSecureStatus::Unlocked
    );
    assert!(client.xap_constants().keycodes.is_empty());
    assert_eq!(client.get_device(idb).unwrap().id(), idb);
    assert_eq!(client.get_device(ida).unwrap_err(), XapClientError::UnknownDevice(ida));
    let all = client.get_devices();
    assert_eq!(all.len(), 1);
    assert_eq!(all[0].id(), idb);
}

fn description(
    identity: HidIdentity,
    serial: Option<&str>,
    product: Option<&str>,
    manufacturer: Option<&str>,
) -> HidDeviceDescription {
    HidDeviceDescription {
        identity,
        serial_number: serial.map(|s| s.to_string()),
        product_string: product.map(|s| s.to_string()),
        manufacturer_string: manufacturer.map(|s| s.to_string()),
    }
}

#[test]
fn device_description_shows_ids_and_strings() {
    let d = description(interface("a", XAP_USAGE_PAGE, XAP_USAGE), Some("s1"), Some("p"), Some("m"));
    assert_eq!(
        device_description(&d),
        "VID: feed, PID: 6060, Serial: s1, Product name: p, Manufacturer: m"
    );
}

#[test]
fn device_description_marks_missing_strings() {
    let d = description(interface("a", XAP_USAGE_PAGE, XAP_USAGE), None, Some("p"), None);
    assert_eq!(
        device_description(&d),
        "VID: feed, PID: 6060, Serial: <COULD NOT FETCH>, Product name: p, Manufacturer: <COULD_NOT_FETCH>"
    );
}

#[test]
fn get_xap_devices_lists_only_xap_interfaces() {
    let mut other = interface("b", 0x0001, 0x0006);
    other.vendor_id = 0x0001;
    let found = vec![
        description(interface("a", XAP_USAGE_PAGE, XAP_USAGE), Some("x"), Some("kb"), Some("qmk")),
        description(other, Some("y"), Some("mouse"), Some("acme")),
        description(interface("c", XAP_USAGE_PAGE, XAP_USAGE), None, None, None),
    ];
    let lines = XapClient::get_xap_devices(&found);
    assert_eq!(
        lines,
        vec![
            "VID: feed, PID: 6060, Serial: x, Product name: kb, Manufacturer: qmk".to_string(),
            "VID: feed, PID: 6060, Serial: <COULD NOT FETCH>, Product name: <COULD NOT FETCH>, Manufacturer: <COULD_NOT_FETCH>".to_string(),
        ]
    );
}

#[test]
fn running_reader_keeps_an_unlisted_device() {
    let mut client = XapClient::new(constants());
    let a = interface("a", XAP_USAGE_PAGE, XAP_USAGE);
    let b = interface("b", XAP_USAGE_PAGE, XAP_USAGE);
    let c = interface("c", XAP_USAGE_PAGE, XAP_USAGE);
    let da = XapDevice::new(a.clone(), client.constants());
    let db = XapDevice::new(b.clone(), client.constants());
    let dc = XapDevice::new(c.clone(), client.constants());
    let (ida, idb, idc) = (da.id(), db.id(), dc.id());
    client.add_device(da);
    client.add_device(db);
    client.add_device(dc);
    // Only `c` is listed; the reader of `a` still runs, that of `b` stopped,
    // and `c` stays because it is listed even though its reader stopped.
    let events = client.remove_gone(&vec![c.clone()], &vec![true, false, false]);
    assert_eq!(events.len(), 1);
    assert!(matches!(events[0], XapEvent::RemovedDevice { id } if id == idb));
    assert_eq!(client.device_count(), 2);
    assert_eq!(client.device(0).id(), ida);
    assert_eq!(client.device(1).id(), idc);
}

#[test]
fn enumeration_opens_each_new_interface_once() {
    let mut client = XapClient::new(constants());
    let a = interface("a", XAP_USAGE_PAGE, XAP_USAGE);
    let b = interface("b", XAP_USAGE_PAGE, XAP_USAGE);
    client.add_device(XapDevice::new(a.clone(), client.constants()));
    let found = vec![b.clone(), a.clone(), b.clone(), interface("c", XAP_USAGE_PAGE, XAP_USAGE)];
    assert_eq!(client.interfaces_to_open(&found), vec![0, 3]);

    // Opening those settles the enumeration: a second one over the same
    // list removes nothing and opens nothing.
    for index in client.interfaces_to_open(&found) {
        let device = XapDevice::new(found[index].clone(), client.constants());
        client.add_device(device);
    }
    assert!(client.remove_missing(&found).is_empty());
    assert_eq!(client.device_count(), 3);
    assert!(client.interfaces_to_open(&found).is_empty());
}

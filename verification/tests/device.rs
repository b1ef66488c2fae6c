use std::collections::HashMap;
use std::sync::Arc;

use qmk_xap::constants::keycode::XapKeyCode;
use qmk_xap::constants::lighting::LightingEffects;
use qmk_xap::aggregation::{QmkInfo, XapDeviceInfo, XapInfo};
use qmk_xap::constants::XapConstants;
use qmk_xap::device::{HidIdentity, Keymap, KeymapKey, XapDevice, XapEvent};
use qmk_xap::request::XAP_REPORT_SIZE;
use qmk_xap::spec::keymap::KeymapGetKeycodeArg;
use qmk_xap::spec::qmk::{QmkBoardIdentifiersResponse, QmkVersionRequest};
use qmk_xap::spec::remapping::RemappingSetKeycodeArg;
use qmk_xap::status::XapSecureStatus;
use qmk_xap::XapError;

fn identity(path: &[u8]) -> HidIdentity {
    HidIdentity {
        path: path.to_vec(),
        vendor_id: 0xFEED,
        product_id: 0x0001,
        usage_page: 0xFF51,
        usage: 0x0058,
    }
}

fn constants() -> XapConstants {
    let mut keycodes = HashMap::new();
    keycodes.insert(
        4,
        XapKeyCode {
            code: 4,
            key: "KC_A".to_owned(),
            group: Some("basic".to_owned()),
            label: Some("A".to_owned()),
            aliases: vec![],
        },
    );
    XapConstants::new(
        keycodes,
        LightingEffects::empty(),
        LightingEffects::empty(),
        LightingEffects::empty(),
    )
}

fn device() -> XapDevice {
    XapDevice::new(identity(b"/dev/hidraw0"), Arc::new(constants()))
}

fn response_report(token: u16, flags: u8, payload: &[u8]) -> Vec<u8> {
    let mut r = vec![0u8; XAP_REPORT_SIZE];
    r[0] = token as u8;
    r[1] = (token >> 8) as u8;
    r[2] = flags;
    r[3] = payload.len() as u8;
    r[4..4 + payload.len()].copy_from_slice(payload);
    r
}

#[test]
fn new_device_is_locked_and_empty() {
    let d = device();
    assert_eq!(d.secure_status(), XapSecureStatus::Locked);
    assert!(d.state().info.is_none());
    assert!(d.broadcast_queue.is_empty());
    assert_eq!(d.id(), d.state().id);
}

#[test]
fn hid_identity_comparison() {
    let d = device();
    assert!(d.is_hid_device(&identity(b"/dev/hidraw0")));
    assert!(!d.is_hid_device(&identity(b"/dev/hidraw1")));
    let mut other = identity(b"/dev/hidraw0");
    other.usage = 0x0061;
    assert!(!d.is_hid_device(&other));
}

#[test]
fn waiting_request_gets_its_response() {
    let mut d = device();
    let (token, report) = d.prepare_raw_query(&[0x01, 0x00], 0x0100, &[]).expect("prepared");
    assert_eq!(report[0], 0);
    assert_eq!(report[1], token as u8);
    assert_eq!(report[2], (token >> 8) as u8);
    assert_eq!(&report[3..6], &[2, 0x01, 0x00]);
    assert_eq!(d.take_raw_response(token), None);
    let answer = response_report(token, 0x01, &[0x15, 0x01, 0x02, 0x03]);
    assert_eq!(d.handle_report(&answer, XAP_REPORT_SIZE), Ok(XAP_REPORT_SIZE));
    assert_eq!(d.take_raw_response(token), Some(vec![0x15, 0x01, 0x02, 0x03]));
    // The token no longer waits: a second answer is dropped.
    assert_eq!(d.handle_report(&answer, XAP_REPORT_SIZE), Ok(0));
    assert_eq!(d.take_raw_response(token), None);
}

#[test]
fn typed_query_and_response() {
    let mut d = device();
    let (token, report) = d.prepare_query(QmkVersionRequest(())).expect("prepared");
    assert_eq!(&report[3..6], &[2, 0x01, 0x00]);
    d.handle_report(&response_report(token, 0x01, &[4, 3, 2, 1]), XAP_REPORT_SIZE)
        .unwrap();
    let version = d
        .take_response::<QmkVersionRequest>(token)
        .expect("arrived")
        .expect("decoded");
    assert_eq!(version.0, 0x01020304);
    assert!(d.take_response::<QmkVersionRequest>(token).is_none());
}

#[test]
fn unexpected_response_is_dropped() {
    let mut d = device();
    let answer = response_report(0x4242, 0x01, &[1]);
    assert_eq!(d.handle_report(&answer, XAP_REPORT_SIZE), Ok(0));
    assert_eq!(d.take_raw_response(0x4242), None);
}

#[test]
fn empty_read_changes_nothing() {
    let mut d = device();
    assert_eq!(d.handle_report(&[0u8; XAP_REPORT_SIZE], 0), Ok(0));
}

#[test]
fn refused_response_is_an_error() {
    let mut d = device();
    let (token, _) = d.prepare_raw_query(&[0x00, 0x04], 0x0100, &[]).unwrap();
    assert_eq!(
        d.handle_report(&response_report(token, 0x02, &[]), XAP_REPORT_SIZE),
        Err(XapError::SecureLocked)
    );
    assert_eq!(d.take_raw_response(token), None);
}

#[test]
fn raw_query_too_long_is_refused() {
    let mut d = device();
    assert_eq!(
        d.prepare_raw_query(&[1, 2, 3], 0x0100, &[0u8; 59]),
        Err(XapError::ReportOverflow)
    );
}

#[test]
fn secure_status_broadcast_updates_status_and_queues() {
    let mut d = device();
    let mut b = vec![0u8; XAP_REPORT_SIZE];
    b[..5].copy_from_slice(&[0xFF, 0xFF, 0x01, 1, 0x02]);
    assert_eq!(d.handle_report(&b, XAP_REPORT_SIZE), Ok(XAP_REPORT_SIZE));
    assert_eq!(d.secure_status(), XapSecureStatus::Unlocked);
    assert_eq!(d.broadcast_queue.len(), 1);
    assert!(d.broadcasts_readable());
    let events = d.drain_broadcasts().expect("drained");
    assert_eq!(events.len(), 1);
    match &events[0] {
        XapEvent::SecureStatusChanged { id, secure_status } => {
            assert_eq!(*id, d.id());
            assert_eq!(*secure_status, XapSecureStatus::Unlocked);
        }
        other => panic!("unexpected event {other:?}"),
    }
    assert!(d.broadcast_queue.is_empty());
}

#[test]
fn log_and_keyboard_broadcasts() {
    let mut d = device();
    let mut log = vec![0u8; XAP_REPORT_SIZE];
    log[..5].copy_from_slice(&[0xFF, 0xFF, 0x00, 1, 0x00]);
    let mut keyboard = vec![0u8; XAP_REPORT_SIZE];
    keyboard[..4].copy_from_slice(&[0xFF, 0xFF, 0x02, 0]);
    d.handle_report(&log, XAP_REPORT_SIZE).unwrap();
    d.handle_report(&keyboard, XAP_REPORT_SIZE).unwrap();
    assert_eq!(d.broadcast_queue.len(), 2);
    let events = d.drain_broadcasts().unwrap();
    assert_eq!(events.len(), 1);
    assert!(matches!(&events[0], XapEvent::LogReceived { log, .. } if log.is_empty()));
    // A log message that is not empty cannot be read.
    let mut long_log = vec![0u8; XAP_REPORT_SIZE];
    long_log[..6].copy_from_slice(&[0xFF, 0xFF, 0x00, 2, 0x01, b'x']);
    d.handle_report(&long_log, XAP_REPORT_SIZE).unwrap();
    assert!(!d.broadcasts_readable());
}

#[test]
fn set_secure_status_is_recorded() {
    let mut d = device();
    d.set_secure_status(XapSecureStatus::Unlocking);
    assert_eq!(d.secure_status(), XapSecureStatus::Unlocking);
}

fn key(layer: u8, row: u8, column: u8, code: u16) -> KeymapKey {
    KeymapKey {
        code: XapKeyCode::new_custom(code),
        position: KeymapGetKeycodeArg { layer, row, column },
    }
}

#[test]
fn keymap_set_keycode_changes_one_key() {
    let mut keymap = Keymap(vec![vec![vec![key(0, 0, 0, 1), key(0, 0, 1, 2)]]]);
    keymap.set_keycode(key(0, 0, 1, 7));
    assert_eq!(keymap.0[0][0][1].code.code, 7);
    assert_eq!(keymap.0[0][0][0].code.code, 1);
}

#[test]
fn apply_keycode_uses_the_tables() {
    let mut d = device();
    let info_keymap = Keymap(vec![vec![vec![key(0, 0, 0, 1), key(0, 0, 1, 2)]]]);
    let info = sample_info();
    d.set_probe_result(info, Default::default(), info_keymap);
    assert_eq!(d.xap_info().xap.version, 0x0200);
    assert_eq!(d.xap_info().qmk.product_name, "p");
    d.apply_keycode(RemappingSetKeycodeArg { layer: 0, row: 0, column: 1, keycode: 4 });
    let k = &d.state().keymap.0[0][0][1];
    assert_eq!(k.code.key, "KC_A");
    assert_eq!(k.position, KeymapGetKeycodeArg { layer: 0, row: 0, column: 1 });
    d.apply_keycode(RemappingSetKeycodeArg { layer: 0, row: 0, column: 0, keycode: 0x7E00 });
    assert_eq!(d.state().keymap.0[0][0][0].code.key, "USER-CUSTOM-32256");
}

fn sample_info() -> XapDeviceInfo {
    XapDeviceInfo {
        xap: XapInfo { version: 0x0200 },
        qmk: QmkInfo {
            version: "0.1.0".to_owned(),
            board_ids: QmkBoardIdentifiersResponse {
                vendor_id: 1,
                product_id: 2,
                product_version: 3,
                qmk_unique_identifier: 4,
            },
            manufacturer: "m".to_owned(),
            product_name: "p".to_owned(),
            hardware_id: "h".to_owned(),
            jump_to_bootloader_enabled: false,
            eeprom_reset_enabled: false,
        },
        keymap: None,
        remap: None,
        lighting: None,
    }
}

#[test]
fn version_check_compares_the_complement() {
    // A request is refused when the bitwise complement of its version is
    // below the device version.
    let mut d = device();
    d.set_probe_result(sample_info(), Default::default(), Keymap(vec![]));
    assert_eq!(
        d.prepare_raw_query(&[6, 2, 1], 0xFFFF_FFF0, &[]),
        Err(XapError::UnsupportedRequest { request_version: 0xFFFF_FFF0, device_version: 0x0200 })
    );
    assert!(d.prepare_raw_query(&[6, 2, 1], 0x0300, &[]).is_ok());
    assert!(d.prepare_raw_query(&[4, 1], 0x0200, &[]).is_ok());
}

use qmk_xap::protocol::subsystems::keymap::{KeyCode, KeyPosition, KeymapKeycodeQuery};
use qmk_xap::protocol::subsystems::lighting::rgbmatrix::{RGBMatrixConfig, RGBMatrixConfigSet};
use qmk_xap::protocol::subsystems::lighting::{LightingCapabilities, LightingCapabilitiesQuery};
use qmk_xap::protocol::subsystems::qmk::{
    ConfigBlobChunkQuery, QMKHardwareIdentifier, QMKJumpToBootloaderQuery, QMKVersionQuery,
};
use qmk_xap::protocol::subsystems::remap::{KeyPositionConfig, RemapKeycodeQuery};
use qmk_xap::protocol::subsystems::xap::{XAPSecureStatus, XAPSecureStatusQuery, XAPVersionQuery};
use qmk_xap::protocol::{RequestRaw, ResponseRaw, UTF8StringResponse, XAPRequest};
use qmk_xap::request::XapResponse;
use qmk_xap::token::Token;
use qmk_xap::XapError;

fn report(bytes: &[u8]) -> Vec<u8> {
    let mut r = vec![0u8; 64];
    r[..bytes.len()].copy_from_slice(bytes);
    r
}

#[test]
fn routes_are_addressed_by_id() {
    assert_eq!(XAPVersionQuery::id(), &[0x0, 0x0]);
    assert_eq!(QMKVersionQuery::id(), &[0x1, 0x0]);
    assert_eq!(LightingCapabilitiesQuery::id(), &[0x6, 0x1]);
    assert!(QMKJumpToBootloaderQuery::is_secure());
    assert!(RemapKeycodeQuery::is_secure());
    assert!(!XAPSecureStatusQuery::is_secure());
}

#[test]
fn arguments_are_encoded() {
    assert_eq!(KeymapKeycodeQuery(KeyPosition { layer: 1, row: 2, col: 3 }).payload(), vec![1, 2, 3]);
    assert_eq!(
        RemapKeycodeQuery(KeyPositionConfig { layer: 0, row: 1, col: 2, keycode: 0x0104 }).payload(),
        vec![0, 1, 2, 0x04, 0x01]
    );
    assert_eq!(ConfigBlobChunkQuery(64).payload(), vec![64, 0]);
    let set = RGBMatrixConfigSet {
        config: RGBMatrixConfig { enable: 1, mode: 2, hue: 3, sat: 4, val: 5, speed: 6, flags: 7 },
    };
    assert_eq!(set.payload(), vec![1, 2, 3, 4, 5, 6, 7]);
}

#[test]
fn request_frame() {
    let request = RequestRaw::new(KeymapKeycodeQuery(KeyPosition { layer: 0, row: 1, col: 2 }));
    let raw = request.token().raw();
    assert_eq!(request.frame(), vec![raw as u8, (raw >> 8) as u8, 5, 4, 3, 0, 1, 2]);
    assert_eq!(request.to_report()[0], 0);
}

#[test]
fn responses_need_success_and_no_secure_failure() {
    let ok = ResponseRaw::from_raw_report(&report(&[0x00, 0x01, 0x01, 2, 0x04, 0x00])).unwrap();
    assert_eq!(*ok.token(), Token::WithResponse(0x0100));
    assert_eq!(ok.payload(), &[0x04, 0x00]);
    assert_eq!(ok.into_xap_response::<KeymapKeycodeQuery>().unwrap(), KeyCode(4));
    // Other flag bits next to success are accepted.
    assert!(ResponseRaw::from_raw_report(&report(&[0x00, 0x01, 0x05, 0])).is_ok());
    assert_eq!(
        ResponseRaw::from_raw_report(&report(&[0x00, 0x01, 0x03, 0])).unwrap_err(),
        XapError::SecureLocked
    );
    assert_eq!(
        ResponseRaw::from_raw_report(&report(&[0x00, 0x01, 0x02, 0])).unwrap_err(),
        XapError::FailedTransaction
    );
    assert_eq!(
        ResponseRaw::from_raw_report(&report(&[0x00, 0x01, 0x00, 0])).unwrap_err(),
        XapError::FailedTransaction
    );
}

#[test]
fn old_style_responses_decode() {
    assert_eq!(XAPSecureStatus::decode(&[1]).unwrap(), XAPSecureStatus::Unlocking);
    let caps = LightingCapabilities::decode(&[0b1000, 0, 0, 0]).unwrap();
    assert!(caps.contains(LightingCapabilities::RGBLIGHT));
    assert!(!caps.contains(LightingCapabilities::BACKLIGHT));
    assert_eq!(UTF8StringResponse::decode(b"board").unwrap().0, "board");
    let hwid = QMKHardwareIdentifier([1, 22, 333, 4444]);
    assert_eq!(hwid.to_display_string(), "[1, 22, 333, 4444]");
}

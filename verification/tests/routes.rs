use qmk_xap::request::{XapRequest, XapResponse};
use qmk_xap::routes::keymap_routes::{GetKeycodeRequest, GetKeycodeRequestArg, GetKeycodeResponseArg};
use qmk_xap::routes::lighting_routes::rgbmatrix_routes::{
    GetConfigRequest, GetConfigResponseArg, SetConfigRequest, SetConfigRequestArg,
};
use qmk_xap::routes::qmk_routes::{BoardIdentifiersResponseArg, ConfigBlobChunkRequest, HardwareIdentifierResponseArg};
use qmk_xap::routes::xap_routes::{SecureStatusRequest, VersionQueryRequest};
use qmk_xap::spec::lighting::backlight::BacklightSetConfigRequest;
use qmk_xap::spec::remapping::{RemappingSetKeycodeArg, RemappingSetKeycodeRequest};
use qmk_xap::spec::types::BacklightConfig;
use qmk_xap::spec::xap::XapCapabilitiesFlags;
use qmk_xap::XapError;

#[test]
fn route_ids_and_versions() {
    assert_eq!(VersionQueryRequest::id(), &[0, 0]);
    assert_eq!(VersionQueryRequest::xap_version(), 1);
    assert_eq!(SecureStatusRequest::id(), &[0, 3]);
    assert_eq!(GetConfigRequest::id(), &[6, 4, 3]);
    assert_eq!(GetConfigRequest::xap_version(), 0x0300);
    assert_eq!(GetKeycodeRequest::id(), &[4, 3]);
    assert_eq!(GetKeycodeRequest::xap_version(), 0x0200);
}

#[test]
fn request_arguments_are_encoded_in_order() {
    let r = GetKeycodeRequest(GetKeycodeRequestArg { layer: 1, row: 2, column: 3 });
    assert_eq!(r.payload(), vec![1, 2, 3]);
    let set = SetConfigRequest(SetConfigRequestArg {
        enable: 1,
        mode: 2,
        hue: 3,
        sat: 4,
        val: 5,
        speed: 6,
        flags: 7,
    });
    assert_eq!(set.payload(), vec![1, 2, 3, 4, 5, 6, 7]);
    assert_eq!(ConfigBlobChunkRequest(0x0120).payload(), vec![0x20, 0x01]);
    let remap = RemappingSetKeycodeRequest(RemappingSetKeycodeArg {
        layer: 0,
        row: 1,
        column: 2,
        keycode: 0x7E40,
    });
    assert_eq!(remap.payload(), vec![0, 1, 2, 0x40, 0x7E]);
    let backlight = BacklightSetConfigRequest(BacklightConfig { enable: 1, mode: 2, val: 200 });
    assert_eq!(backlight.payload(), vec![1, 2, 200]);
}

#[test]
fn responses_are_decoded() {
    assert_eq!(GetKeycodeResponseArg::decode(&[0x04, 0x00]).unwrap(), GetKeycodeResponseArg(4));
    assert_eq!(
        GetConfigResponseArg::decode(&[1, 2, 3, 4, 5, 6, 7]).unwrap(),
        GetConfigResponseArg { enable: 1, mode: 2, hue: 3, sat: 4, val: 5, speed: 6, flags: 7 }
    );
    assert_eq!(
        GetConfigResponseArg::decode(&[1, 2, 3]).unwrap_err(),
        XapError::UnexpectedEndOfInput
    );
    let ids = BoardIdentifiersResponseArg::decode(&[0xED, 0xFE, 0x60, 0x60, 1, 0, 4, 3, 2, 1]).unwrap();
    assert_eq!(ids.vendor_id, 0xFEED);
    assert_eq!(ids.qmk_unique_identifier, 0x01020304);
    let hw: Vec<u8> = [1u32, 2, 3, 4].iter().flat_map(|w| w.to_le_bytes()).collect();
    assert_eq!(HardwareIdentifierResponseArg::decode(&hw).unwrap().0, [1, 2, 3, 4]);
    let caps = XapCapabilitiesFlags::decode(&[0b101, 0, 0, 0]).unwrap();
    assert!(caps.contains(XapCapabilitiesFlags::Version));
    assert!(!caps.contains(XapCapabilitiesFlags::Capabilities));
    assert_eq!(caps.bits(), 0b101);
}

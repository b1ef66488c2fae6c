use qmk_xap::broadcast::{BroadcastRaw, BroadcastType, LogBroadcast, SecureStatusBroadcast};
use qmk_xap::request::{build_report, RawRequest, XapRequest, XapResponse, XAP_REPORT_SIZE};
use qmk_xap::response::{
    decode_u16, decode_u32, decode_u64, decode_u8, RawResponse, ResponseFlags,
    SecureActionResponse, UTF8String,
};
use qmk_xap::spec::keymap::{KeymapGetKeycodeArg, KeymapGetKeycodeRequest};
use qmk_xap::spec::qmk::{QmkBoardManufacturerRequest, QmkConfigBlobChunkRequest, QmkVersionRequest};
use qmk_xap::spec::xap::XapVersionRequest;
use qmk_xap::status::{XapSecureStatus, XapVersion};
use qmk_xap::token::Token;
use qmk_xap::XapError;

fn report(bytes: &[u8]) -> Vec<u8> {
    let mut r = vec![0u8; XAP_REPORT_SIZE];
    r[..bytes.len()].copy_from_slice(bytes);
    r
}

#[test]
fn build_report_lays_out_the_frame() {
    let r = build_report(0x1234, &[0x04, 0x03], &[1, 2, 3]).expect("fits");
    assert_eq!(r.len(), 65);
    assert_eq!(&r[..9], &[0x00, 0x34, 0x12, 5, 0x04, 0x03, 1, 2, 3]);
    assert!(r[9..].iter().all(|b| *b == 0));
}

#[test]
fn build_report_refuses_an_oversized_frame() {
    assert!(build_report(0x0100, &[1, 2], &[0u8; 59]).is_some());
    assert!(build_report(0x0100, &[1, 2], &[0u8; 60]).is_none());
}

#[test]
fn raw_request_frame_carries_token_id_and_arguments() {
    let request = RawRequest::new(KeymapGetKeycodeRequest(KeymapGetKeycodeArg {
        layer: 1,
        row: 2,
        column: 3,
    }));
    let raw = request.token().raw();
    assert!((0x0100..=0xFFFD).contains(&raw));
    let frame = request.frame();
    assert_eq!(frame, vec![raw as u8, (raw >> 8) as u8, 5, 0x04, 0x03, 1, 2, 3]);
    let report = request.to_report();
    assert_eq!(report[0], 0);
    assert_eq!(&report[1..9], &frame[..]);
    assert!(report[9..].iter().all(|b| *b == 0));
}

#[test]
fn request_ids_and_versions() {
    assert_eq!(XapVersionRequest::id(), &[0x00, 0x00]);
    assert_eq!(XapVersionRequest::xap_version(), 0x00000001);
    assert_eq!(QmkVersionRequest::id(), &[0x01, 0x00]);
    assert_eq!(QmkVersionRequest::xap_version(), 0x00000100);
    assert_eq!(QmkConfigBlobChunkRequest(0x1234).payload(), vec![0x34, 0x12]);
}

#[test]
fn response_is_read_from_report() {
    let r = report(&[0x34, 0x12, 0x01, 4, 0x15, 0x01, 0x02, 0x03]);
    let response = RawResponse::from_raw_report(&r).expect("valid");
    assert_eq!(*response.token(), Token::WithResponse(0x1234));
    assert_eq!(response.flags(), ResponseFlags(0x01));
    assert_eq!(response.payload(), &[0x15, 0x01, 0x02, 0x03]);
    let version = response
        .into_xap_response::<XapVersionRequest>()
        .expect("decodes");
    assert_eq!(version.0, 0x03020115);
}

#[test]
fn response_flags_are_checked() {
    let locked = report(&[0x00, 0x01, 0x02, 0]);
    assert_eq!(
        RawResponse::from_raw_report(&locked).unwrap_err(),
        XapError::SecureLocked
    );
    let odd = report(&[0x00, 0x01, 0x03, 0]);
    assert_eq!(
        RawResponse::from_raw_report(&odd).unwrap_err(),
        XapError::UnknownResponseFlags(0x03)
    );
    let failed = report(&[0x00, 0x01, 0x00, 0]);
    assert_eq!(
        RawResponse::from_raw_report(&failed).unwrap_err(),
        XapError::UnknownResponseFlags(0x00)
    );
}

#[test]
fn response_errors_on_short_reports_and_bad_tokens() {
    assert_eq!(
        RawResponse::from_raw_report(&[0x00, 0x01, 0x01]).unwrap_err(),
        XapError::UnexpectedEndOfInput
    );
    assert_eq!(
        RawResponse::from_raw_report(&[0x00, 0x01, 0x01, 4, 1, 2]).unwrap_err(),
        XapError::UnexpectedEndOfInput
    );
    assert_eq!(
        RawResponse::from_raw_report(&report(&[0x05, 0x00, 0x01, 0])).unwrap_err(),
        XapError::InvalidToken(0x0005)
    );
    assert_eq!(
        RawResponse::from_raw_report(&[0x00]).unwrap_err(),
        XapError::UnexpectedEndOfInput
    );
}

#[test]
fn integer_payloads_are_little_endian() {
    assert_eq!(decode_u8(&[7, 9]), Ok(7));
    assert_eq!(decode_u16(&[0x34, 0x12]), Ok(0x1234));
    assert_eq!(decode_u32(&[0x78, 0x56, 0x34, 0x12]), Ok(0x12345678));
    assert_eq!(
        decode_u64(&[1, 0, 0, 0, 0, 0, 0, 0x80]),
        Ok(0x8000_0000_0000_0001)
    );
    assert_eq!(decode_u8(&[]), Err(XapError::UnexpectedEndOfInput));
    assert_eq!(decode_u16(&[1]), Err(XapError::UnexpectedEndOfInput));
    assert_eq!(decode_u32(&[1, 2, 3]), Err(XapError::UnexpectedEndOfInput));
    assert_eq!(decode_u64(&[1, 2, 3, 4, 5, 6, 7]), Err(XapError::UnexpectedEndOfInput));
}

#[test]
fn string_payloads_are_utf8() {
    let s = UTF8String::decode("Keychron".as_bytes()).expect("utf8");
    assert_eq!(s.0, "Keychron");
    assert!(matches!(UTF8String::decode(&[0xff, 0xfe]), Err(XapError::InvalidUtf8)));
    let r = report(&[0x00, 0x02, 0x01, 3, b'Q', b'M', b'K']);
    let name = RawResponse::from_raw_report(&r)
        .unwrap()
        .into_xap_response::<QmkBoardManufacturerRequest>()
        .unwrap();
    assert_eq!((name.0).0, "QMK");
}

#[test]
fn secure_action_result() {
    assert_eq!(SecureActionResponse(0).into_result(), Err(XapError::SecureLocked));
    assert_eq!(SecureActionResponse(1).into_result(), Ok(()));
}

#[test]
fn broadcasts_are_read() {
    let r = report(&[0xFF, 0xFF, 0x01, 1, 0x02]);
    let b = BroadcastRaw::from_raw_report(&r).expect("valid");
    assert_eq!(*b.broadcast_type(), BroadcastType::SecureStatus);
    assert_eq!(*b.token(), Token::Broadcast);
    assert_eq!(b.payload(), &[0x02]);
    let status: SecureStatusBroadcast = b.into_xap_broadcast().unwrap();
    assert_eq!(status.0, XapSecureStatus::Unlocked);

    let log = BroadcastRaw::from_raw_report(&report(&[0xFF, 0xFF, 0x00, 1, 0x00])).unwrap();
    let message: LogBroadcast = log.into_xap_broadcast().unwrap();
    assert_eq!(message.0, "");

    assert_eq!(
        BroadcastRaw::from_raw_report(&report(&[0xFF, 0xFF, 0x07, 0])).unwrap_err(),
        XapError::InvalidBroadcastType(7)
    );
    assert_eq!(BroadcastType::from_u8(3), Ok(BroadcastType::User));
    assert_eq!(BroadcastType::from_u8(2), Ok(BroadcastType::Keyboard));
    assert_eq!(BroadcastType::from_u8(0), Ok(BroadcastType::Log));
}

#[test]
fn secure_status_from_byte() {
    assert_eq!(XapSecureStatus::from(0u8), XapSecureStatus::Locked);
    assert_eq!(XapSecureStatus::from(1u8), XapSecureStatus::Unlocking);
    assert_eq!(XapSecureStatus::from(2u8), XapSecureStatus::Unlocked);
    assert_eq!(XapSecureStatus::from(9u8), XapSecureStatus::Locked);
    assert_eq!(XapSecureStatus::default(), XapSecureStatus::Locked);
    assert_eq!(XapSecureStatus::Unlocking.to_display_string(), "Unlocking");
    assert_eq!(XapSecureStatus::Locked.to_display_string(), "Locked");
}

#[test]
fn xap_versions() {
    for v in [0x01u32, 0x0100, 0x0200, 0x0300] {
        assert_eq!(XapVersion::try_from(v).unwrap().value(), v);
    }
    assert_eq!(XapVersion::try_from(0x0400), Err(XapError::InvalidVersion(0x0400)));
    assert_eq!(XapVersion::try_from(0x0300).unwrap().to_display_string(), "00000300");
    assert_eq!(XapVersion::try_from(0x01).unwrap().to_display_string(), "00000001");
}

#[test]
fn token_roundtrip() {
    for raw in [0x0100u16, 0x4242, 0xFFFD, 0xFFFE, 0xFFFF] {
        assert_eq!(Token::from_raw(raw).unwrap().raw(), raw);
    }
    assert_eq!(Token::read(&[0xFE, 0xFF]), Ok(Token::WithoutResponse));
    assert_eq!(Token::read(&[0xFE]), Err(XapError::UnexpectedEndOfInput));
}

#[test]
fn version_display_reads_back_as_hex() {
    for value in [0x01u32, 0x0100, 0x0200, 0x0300] {
        let text = XapVersion::try_from(value).unwrap().to_display_string();
        assert_eq!(text.len(), 8);
        assert_eq!(u32::from_str_radix(&text, 16), Ok(value));
    }
}

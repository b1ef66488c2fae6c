//! Routes of the XAP subsystem, with responses named after the route.
use vstd::prelude::*;

use crate::error::XapError;
use crate::request::{XapRequest, XapResponse};

verus! {

/// Version Query
///
/// XAP protocol version query.
///
/// * Returns the BCD-encoded version in the format of XX.YY.ZZZZ => `0xXXYYZZZZ`
///     * e.g. 3.2.115 will match `0x03020115`, or bytes {0x15,0x01,0x02,0x03}.
#[derive(Debug, Default, Clone, Copy)]
pub struct VersionQueryRequest(pub ());

impl XapRequest for VersionQueryRequest {
    type Response = VersionQueryResponseArg;

    open spec fn spec_id() -> Seq<u8> {
        seq![0x00u8, 0x00u8]
    }

    open spec fn spec_xap_version() -> u32 {
        0x00000001
    }

    open spec fn spec_payload(&self) -> Seq<u8> {
        Seq::empty()
    }

    fn id() -> (r: &'static [u8]) {
        let r: &'static [u8] = &[0x00, 0x00];
        assert(r@ =~= seq![0x00u8, 0x00u8]);
        r
    }

    fn xap_version() -> (r: u32) {
        0x00000001
    }

    fn payload(&self) -> (r: Vec<u8>) {
        let r: Vec<u8> = Vec::new();
        assert(r@ =~= Seq::<u8>::empty());
        r
    }
}

#[derive(Debug, Default, Clone, Copy, PartialEq, Eq, Structural)]
pub struct VersionQueryResponseArg(pub u32);

impl XapResponse for VersionQueryResponseArg {
    type Model = u32;

    open spec fn model(&self) -> u32 {
        self.0
    }

    open spec fn spec_decode(payload: Seq<u8>) -> Result<u32, XapError> {
        crate::response::spec_decode_u32(payload)
    }

    fn decode(payload: &[u8]) -> (r: Result<VersionQueryResponseArg, XapError>) {
        match crate::response::decode_u32(payload) {
            Ok(v) => Ok(VersionQueryResponseArg(v)),
            Err(e) => Err(e),
        }
    }
}

/// Capabilities Query
///
/// XAP subsystem capabilities query. Each bit should be considered as a "usable" route within this subsystem.
#[derive(Debug, Default, Clone, Copy)]
pub struct CapabilitiesQueryRequest(pub ());

impl XapRequest for CapabilitiesQueryRequest {
    type Response = CapabilitiesQueryResponseArg;

    open spec fn spec_id() -> Seq<u8> {
        seq![0x00u8, 0x01u8]
    }

    open spec fn spec_xap_version() -> u32 {
        0x00000100
    }

    open spec fn spec_payload(&self) -> Seq<u8> {
        Seq::empty()
    }

    fn id() -> (r: &'static [u8]) {
        let r: &'static [u8] = &[0x00, 0x01];
        assert(r@ =~= seq![0x00u8, 0x01u8]);
        r
    }

    fn xap_version() -> (r: u32) {
        0x00000100
    }

    fn payload(&self) -> (r: Vec<u8>) {
        let r: Vec<u8> = Vec::new();
        assert(r@ =~= Seq::<u8>::empty());
        r
    }
}

#[derive(Debug, Default, Clone, Copy, PartialEq, Eq, Structural)]
pub struct CapabilitiesQueryResponseArg(pub u32);

impl XapResponse for CapabilitiesQueryResponseArg {
    type Model = u32;

    open spec fn model(&self) -> u32 {
        self.0
    }

    open spec fn spec_decode(payload: Seq<u8>) -> Result<u32, XapError> {
        crate::response::spec_decode_u32(payload)
    }

    fn decode(payload: &[u8]) -> (r: Result<CapabilitiesQueryResponseArg, XapError>) {
        match crate::response::decode_u32(payload) {
            Ok(v) => Ok(CapabilitiesQueryResponseArg(v)),
            Err(e) => Err(e),
        }
    }
}

/// Enabled subsystem query
///
/// XAP protocol subsystem query. Each bit should be considered as a "usable" subsystem. For example, checking `(value & (1 << XAP_ROUTE_QMK) != 0)` means the QMK subsystem is enabled and available for querying.
#[derive(Debug, Default, Clone, Copy)]
pub struct EnabledSubsystemQueryRequest(pub ());

impl XapRequest for EnabledSubsystemQueryRequest {
    type Response = EnabledSubsystemQueryResponseArg;

    open spec fn spec_id() -> Seq<u8> {
        seq![0x00u8, 0x02u8]
    }

    open spec fn spec_xap_version() -> u32 {
        0x00000100
    }

    open spec fn spec_payload(&self) -> Seq<u8> {
        Seq::empty()
    }

    fn id() -> (r: &'static [u8]) {
        let r: &'static [u8] = &[0x00, 0x02];
        assert(r@ =~= seq![0x00u8, 0x02u8]);
        r
    }

    fn xap_version() -> (r: u32) {
        0x00000100
    }

    fn payload(&self) -> (r: Vec<u8>) {
        let r: Vec<u8> = Vec::new();
        assert(r@ =~= Seq::<u8>::empty());
        r
    }
}

#[derive(Debug, Default, Clone, Copy, PartialEq, Eq, Structural)]
pub struct EnabledSubsystemQueryResponseArg(pub u32);

impl XapResponse for EnabledSubsystemQueryResponseArg {
    type Model = u32;

    open spec fn model(&self) -> u32 {
        self.0
    }

    open spec fn spec_decode(payload: Seq<u8>) -> Result<u32, XapError> {
        crate::response::spec_decode_u32(payload)
    }

    fn decode(payload: &[u8]) -> (r: Result<EnabledSubsystemQueryResponseArg, XapError>) {
        match crate::response::decode_u32(payload) {
            Ok(v) => Ok(EnabledSubsystemQueryResponseArg(v)),
            Err(e) => Err(e),
        }
    }
}

/// Secure Status
///
/// Query secure route status
///
/// * 0 means secure routes are disabled
/// * 1 means unlock sequence initiated but incomplete
/// * 2 means secure routes are allowed
/// * any other value should be interpreted as disabled
#[derive(Debug, Default, Clone, Copy)]
pub struct SecureStatusRequest(pub ());

impl XapRequest for SecureStatusRequest {
    type Response = SecureStatusResponseArg;

    open spec fn spec_id() -> Seq<u8> {
        seq![0x00u8, 0x03u8]
    }

    open spec fn spec_xap_version() -> u32 {
        0x00000100
    }

    open spec fn spec_payload(&self) -> Seq<u8> {
        Seq::empty()
    }

    fn id() -> (r: &'static [u8]) {
        let r: &'static [u8] = &[0x00, 0x03];
        assert(r@ =~= seq![0x00u8, 0x03u8]);
        r
    }

    fn xap_version() -> (r: u32) {
        0x00000100
    }

    fn payload(&self) -> (r: Vec<u8>) {
        let r: Vec<u8> = Vec::new();
        assert(r@ =~= Seq::<u8>::empty());
        r
    }
}

#[derive(Debug, Default, Clone, Copy, PartialEq, Eq, Structural)]
pub struct SecureStatusResponseArg(pub u8);

impl XapResponse for SecureStatusResponseArg {
    type Model = u8;

    open spec fn model(&self) -> u8 {
        self.0
    }

    open spec fn spec_decode(payload: Seq<u8>) -> Result<u8, XapError> {
        crate::response::spec_decode_u8(payload)
    }

    fn decode(payload: &[u8]) -> (r: Result<SecureStatusResponseArg, XapError>) {
        match crate::response::decode_u8(payload) {
            Ok(v) => Ok(SecureStatusResponseArg(v)),
            Err(e) => Err(e),
        }
    }
}

/// Secure Unlock
///
/// Initiate secure route unlock sequence
#[derive(Debug, Default, Clone, Copy)]
pub struct SecureUnlockRequest(pub ());

impl XapRequest for SecureUnlockRequest {
    type Response = ();

    open spec fn spec_id() -> Seq<u8> {
        seq![0x00u8, 0x04u8]
    }

    open spec fn spec_xap_version() -> u32 {
        0x00000100
    }

    open spec fn spec_payload(&self) -> Seq<u8> {
        Seq::empty()
    }

    fn id() -> (r: &'static [u8]) {
        let r: &'static [u8] = &[0x00, 0x04];
        assert(r@ =~= seq![0x00u8, 0x04u8]);
        r
    }

    fn xap_version() -> (r: u32) {
        0x00000100
    }

    fn payload(&self) -> (r: Vec<u8>) {
        let r: Vec<u8> = Vec::new();
        assert(r@ =~= Seq::<u8>::empty());
        r
    }
}

/// Secure Lock
///
/// Disable secure routes
#[derive(Debug, Default, Clone, Copy)]
pub struct SecureLockRequest(pub ());

impl XapRequest for SecureLockRequest {
    type Response = ();

    open spec fn spec_id() -> Seq<u8> {
        seq![0x00u8, 0x05u8]
    }

    open spec fn spec_xap_version() -> u32 {
        0x00000100
    }

    open spec fn spec_payload(&self) -> Seq<u8> {
        Seq::empty()
    }

    fn id() -> (r: &'static [u8]) {
        let r: &'static [u8] = &[0x00, 0x05];
        assert(r@ =~= seq![0x00u8, 0x05u8]);
        r
    }

    fn xap_version() -> (r: u32) {
        0x00000100
    }

    fn payload(&self) -> (r: Vec<u8>) {
        let r: Vec<u8> = Vec::new();
        assert(r@ =~= Seq::<u8>::empty());
        r
    }
}

} // verus!

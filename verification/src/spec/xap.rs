//! Routes of the XAP subsystem: protocol version, capabilities and secure status.
use vstd::prelude::*;

use crate::error::XapError;
use crate::request::{XapRequest, XapResponse};

verus! {

/// Version
///
/// XAP protocol version query.
///
/// * Returns the BCD-encoded version in the format of XX.YY.ZZZZ => `0xXXYYZZZZ`
/// * e.g. 3.2.115 will match `0x03020115`, or bytes {0x15,0x01,0x02,0x03}.
#[derive(Debug, Default, Clone, Copy)]
pub struct XapVersionRequest(pub ());

impl XapRequest for XapVersionRequest {
    type Response = XapVersionResponse;

    open spec fn spec_id() -> Seq<u8> {
        seq![0x00u8, 0x00u8]
    }

    open spec fn spec_xap_version() -> u32 {
        0x00000001
    }

    open spec fn spec_payload(&self) -> Seq<u8> {
        Seq::empty()
    }

    fn id() -> (r: &'static [u8]) {
        let r: &'static [u8] = &[0x00, 0x00];
        assert(r@ =~= seq![0x00u8, 0x00u8]);
        r
    }

    fn xap_version() -> (r: u32) {
        0x00000001
    }

    fn payload(&self) -> (r: Vec<u8>) {
        let r: Vec<u8> = Vec::new();
        assert(r@ =~= Seq::<u8>::empty());
        r
    }
}

#[derive(Debug, Default, Clone, Copy, PartialEq, Eq, Structural)]
pub struct XapVersionResponse(pub u32);

impl XapResponse for XapVersionResponse {
    type Model = u32;

    open spec fn model(&self) -> u32 {
        self.0
    }

    open spec fn spec_decode(payload: Seq<u8>) -> Result<u32, XapError> {
        crate::response::spec_decode_u32(payload)
    }

    fn decode(payload: &[u8]) -> (r: Result<XapVersionResponse, XapError>) {
        match crate::response::decode_u32(payload) {
            Ok(v) => Ok(XapVersionResponse(v)),
            Err(e) => Err(e),
        }
    }
}

/// capabilities
///
/// XAP subsystem capabilities query. Each bit should be considered as a "usable" route within this subsystem.
#[derive(Debug, Default, Clone, Copy)]
pub struct XapCapabilitiesRequest(pub ());

impl XapRequest for XapCapabilitiesRequest {
    type Response = XapCapabilitiesFlags;

    open spec fn spec_id() -> Seq<u8> {
        seq![0x00u8, 0x01u8]
    }

    open spec fn spec_xap_version() -> u32 {
        0x00000100
    }

    open spec fn spec_payload(&self) -> Seq<u8> {
        Seq::empty()
    }

    fn id() -> (r: &'static [u8]) {
        let r: &'static [u8] = &[0x00, 0x01];
        assert(r@ =~= seq![0x00u8, 0x01u8]);
        r
    }

    fn xap_version() -> (r: u32) {
        0x00000100
    }

    fn payload(&self) -> (r: Vec<u8>) {
        let r: Vec<u8> = Vec::new();
        assert(r@ =~= Seq::<u8>::empty());
        r
    }
}

/// Routes of the subsystem that the device supports, one bit per route id.
#[derive(Debug, Clone, Copy, PartialEq, Eq, PartialOrd, Ord, Hash, Structural)]
pub struct XapCapabilitiesFlags(u32);

impl XapCapabilitiesFlags {
    #[allow(non_upper_case_globals)]
    pub const Version: u32 = 1 << 0;

    #[allow(non_upper_case_globals)]
    pub const Capabilities: u32 = 1 << 1;

    #[allow(non_upper_case_globals)]
    pub const EnabledSubsystemCapabilities: u32 = 1 << 2;

    #[allow(non_upper_case_globals)]
    pub const SecureStatus: u32 = 1 << 3;

    #[allow(non_upper_case_globals)]
    pub const SecureUnlock: u32 = 1 << 4;

    #[allow(non_upper_case_globals)]
    pub const SecureLock: u32 = 1 << 5;

    pub closed spec fn spec_bits(&self) -> u32 {
        self.0
    }

    pub fn from_bits_retain(bits: u32) -> (r: XapCapabilitiesFlags)
        ensures
            r.spec_bits() == bits,
    {
        XapCapabilitiesFlags(bits)
    }

    pub fn bits(&self) -> (r: u32)
        ensures
            r == self.spec_bits(),
    {
        self.0
    }

    /// Whether every bit of `flag` is set.
    pub fn contains(&self, flag: u32) -> (r: bool)
        ensures
            r == (self.spec_bits() & flag == flag),
    {
        self.0 & flag == flag
    }
}

impl XapResponse for XapCapabilitiesFlags {
    type Model = u32;

    open spec fn model(&self) -> u32 {
        self.spec_bits()
    }

    open spec fn spec_decode(payload: Seq<u8>) -> Result<u32, XapError> {
        crate::response::spec_decode_u32(payload)
    }

    fn decode(payload: &[u8]) -> (r: Result<XapCapabilitiesFlags, XapError>) {
        match crate::response::decode_u32(payload) {
            Ok(v) => Ok(XapCapabilitiesFlags(v)),
            Err(e) => Err(e),
        }
    }
}

/// Enabled subsystem capabilities
///
/// XAP protocol subsystem query. Each bit should be considered as a "usable" subsystem. For example, checking `(value & (1 << XAP_ROUTE_QMK) != 0)` means the QMK subsystem is enabled and available for querying.
#[derive(Debug, Default, Clone, Copy)]
pub struct XapEnabledSubsystemCapabilitiesRequest(pub ());

impl XapRequest for XapEnabledSubsystemCapabilitiesRequest {
    type Response = XapEnabledSubsystemCapabilitiesFlags;

    open spec fn spec_id() -> Seq<u8> {
        seq![0x00u8, 0x02u8]
    }

    open spec fn spec_xap_version() -> u32 {
        0x00000100
    }

    open spec fn spec_payload(&self) -> Seq<u8> {
        Seq::empty()
    }

    fn id() -> (r: &'static [u8]) {
        let r: &'static [u8] = &[0x00, 0x02];
        assert(r@ =~= seq![0x00u8, 0x02u8]);
        r
    }

    fn xap_version() -> (r: u32) {
        0x00000100
    }

    fn payload(&self) -> (r: Vec<u8>) {
        let r: Vec<u8> = Vec::new();
        assert(r@ =~= Seq::<u8>::empty());
        r
    }
}

/// Routes of the subsystem that the device supports, one bit per route id.
#[derive(Debug, Clone, Copy, PartialEq, Eq, PartialOrd, Ord, Hash, Structural)]
pub struct XapEnabledSubsystemCapabilitiesFlags(u32);

impl XapEnabledSubsystemCapabilitiesFlags {
    #[allow(non_upper_case_globals)]
    pub const Xap: u32 = 1 << 0;

    #[allow(non_upper_case_globals)]
    pub const Qmk: u32 = 1 << 1;

    #[allow(non_upper_case_globals)]
    pub const Keyboard: u32 = 1 << 2;

    #[allow(non_upper_case_globals)]
    pub const User: u32 = 1 << 3;

    #[allow(non_upper_case_globals)]
    pub const Keymap: u32 = 1 << 4;

    #[allow(non_upper_case_globals)]
    pub const Remapping: u32 = 1 << 5;

    #[allow(non_upper_case_globals)]
    pub const Lighting: u32 = 1 << 6;

    #[allow(non_upper_case_globals)]
    pub const Audio: u32 = 1 << 7;

    pub closed spec fn spec_bits(&self) -> u32 {
        self.0
    }

    pub fn from_bits_retain(bits: u32) -> (r: XapEnabledSubsystemCapabilitiesFlags)
        ensures
            r.spec_bits() == bits,
    {
        XapEnabledSubsystemCapabilitiesFlags(bits)
    }

    pub fn bits(&self) -> (r: u32)
        ensures
            r == self.spec_bits(),
    {
        self.0
    }

    /// Whether every bit of `flag` is set.
    pub fn contains(&self, flag: u32) -> (r: bool)
        ensures
            r == (self.spec_bits() & flag == flag),
    {
        self.0 & flag == flag
    }
}

impl XapResponse for XapEnabledSubsystemCapabilitiesFlags {
    type Model = u32;

    open spec fn model(&self) -> u32 {
        self.spec_bits()
    }

    open spec fn spec_decode(payload: Seq<u8>) -> Result<u32, XapError> {
        crate::response::spec_decode_u32(payload)
    }

    fn decode(payload: &[u8]) -> (r: Result<XapEnabledSubsystemCapabilitiesFlags, XapError>) {
        match crate::response::decode_u32(payload) {
            Ok(v) => Ok(XapEnabledSubsystemCapabilitiesFlags(v)),
            Err(e) => Err(e),
        }
    }
}

/// Secure Status
///
/// Query secure route status
///
/// * 0 means secure routes are disabled
/// * 1 means unlock sequence initiated but incomplete
/// * 2 means secure routes are allowed
/// * any other value should be interpreted as disabled
#[derive(Debug, Default, Clone, Copy)]
pub struct XapSecureStatusRequest(pub ());

impl XapRequest for XapSecureStatusRequest {
    type Response = XapSecureStatusResponse;

    open spec fn spec_id() -> Seq<u8> {
        seq![0x00u8, 0x03u8]
    }

    open spec fn spec_xap_version() -> u32 {
        0x00000100
    }

    open spec fn spec_payload(&self) -> Seq<u8> {
        Seq::empty()
    }

    fn id() -> (r: &'static [u8]) {
        let r: &'static [u8] = &[0x00, 0x03];
        assert(r@ =~= seq![0x00u8, 0x03u8]);
        r
    }

    fn xap_version() -> (r: u32) {
        0x00000100
    }

    fn payload(&self) -> (r: Vec<u8>) {
        let r: Vec<u8> = Vec::new();
        assert(r@ =~= Seq::<u8>::empty());
        r
    }
}

#[derive(Debug, Default, Clone, Copy, PartialEq, Eq, Structural)]
pub struct XapSecureStatusResponse(pub u8);

impl XapResponse for XapSecureStatusResponse {
    type Model = u8;

    open spec fn model(&self) -> u8 {
        self.0
    }

    open spec fn spec_decode(payload: Seq<u8>) -> Result<u8, XapError> {
        crate::response::spec_decode_u8(payload)
    }

    fn decode(payload: &[u8]) -> (r: Result<XapSecureStatusResponse, XapError>) {
        match crate::response::decode_u8(payload) {
            Ok(v) => Ok(XapSecureStatusResponse(v)),
            Err(e) => Err(e),
        }
    }
}

/// Secure Unlock
///
/// Initiate secure route unlock sequence
#[derive(Debug, Default, Clone, Copy)]
pub struct XapSecureUnlockRequest(pub ());

impl XapRequest for XapSecureUnlockRequest {
    type Response = ();

    open spec fn spec_id() -> Seq<u8> {
        seq![0x00u8, 0x04u8]
    }

    open spec fn spec_xap_version() -> u32 {
        0x00000100
    }

    open spec fn spec_payload(&self) -> Seq<u8> {
        Seq::empty()
    }

    fn id() -> (r: &'static [u8]) {
        let r: &'static [u8] = &[0x00, 0x04];
        assert(r@ =~= seq![0x00u8, 0x04u8]);
        r
    }

    fn xap_version() -> (r: u32) {
        0x00000100
    }

    fn payload(&self) -> (r: Vec<u8>) {
        let r: Vec<u8> = Vec::new();
        assert(r@ =~= Seq::<u8>::empty());
        r
    }
}

/// Secure Lock
///
/// Disable secure routes
#[derive(Debug, Default, Clone, Copy)]
pub struct XapSecureLockRequest(pub ());

impl XapRequest for XapSecureLockRequest {
    type Response = ();

    open spec fn spec_id() -> Seq<u8> {
        seq![0x00u8, 0x05u8]
    }

    open spec fn spec_xap_version() -> u32 {
        0x00000100
    }

    open spec fn spec_payload(&self) -> Seq<u8> {
        Seq::empty()
    }

    fn id() -> (r: &'static [u8]) {
        let r: &'static [u8] = &[0x00, 0x05];
        assert(r@ =~= seq![0x00u8, 0x05u8]);
        r
    }

    fn xap_version() -> (r: u32) {
        0x00000100
    }

    fn payload(&self) -> (r: Vec<u8>) {
        let r: Vec<u8> = Vec::new();
        assert(r@ =~= Seq::<u8>::empty());
        r
    }
}

} // verus!

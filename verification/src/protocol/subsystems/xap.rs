//! Routes of the XAP subsystem, addressed by route id.
use vstd::prelude::*;

use crate::error::XapError;
use crate::protocol::XAPRequest;
use crate::request::XapResponse;
use crate::status::XapSecureStatus;
verus! {

/// The BCD-encoded XAP protocol version of the device.
#[derive(Debug, Default, Clone, Copy, PartialEq, Eq, Structural)]
pub struct XAPVersion(pub u32);

impl XapResponse for XAPVersion {
    type Model = u32;

    open spec fn model(&self) -> u32 {
        self.0
    }

    open spec fn spec_decode(payload: Seq<u8>) -> Result<u32, XapError> {
        crate::response::spec_decode_u32(payload)
    }

    fn decode(payload: &[u8]) -> (r: Result<XAPVersion, XapError>) {
        match crate::response::decode_u32(payload) {
            Ok(v) => Ok(XAPVersion(v)),
            Err(e) => Err(e),
        }
    }
}

/// Route 0x0 0x0: the XAP protocol version.
#[derive(Debug, Default, Clone, Copy)]
pub struct XAPVersionQuery;

impl XAPRequest for XAPVersionQuery {
    type Response = XAPVersion;

    open spec fn spec_id() -> Seq<u8> {
        seq![0x0u8, 0x0u8]
    }

    open spec fn spec_is_secure() -> bool {
        false
    }

    open spec fn spec_payload(&self) -> Seq<u8> {
        Seq::empty()
    }

    fn id() -> (r: &'static [u8]) {
        let r: &'static [u8] = &[0x0, 0x0];
        assert(r@ =~= seq![0x0u8, 0x0u8]);
        r
    }

    fn is_secure() -> (r: bool) {
        false
    }

    fn payload(&self) -> (r: Vec<u8>) {
        let r: Vec<u8> = Vec::new();
        assert(r@ =~= Seq::<u8>::empty());
        r
    }
}

/// Routes of the XAP subsystem the device supports, one bit per route id.
#[derive(Debug, Clone, Copy, PartialEq, Eq, PartialOrd, Ord, Hash, Structural)]
pub struct XAPCapabilities(u32);

impl XAPCapabilities {
    pub const VERSION: u32 = 1 << 0;

    pub const CAPABILITIES: u32 = 1 << 1;

    pub const SUBSYSTEMS: u32 = 1 << 2;

    pub const SECURE_STATUS: u32 = 1 << 3;

    pub const SECURE_UNLOCK: u32 = 1 << 4;

    pub const SECURE_LOCK: u32 = 1 << 5;

    pub closed spec fn spec_bits(&self) -> u32 {
        self.0
    }

    pub fn from_bits_retain(bits: u32) -> (r: XAPCapabilities)
        ensures
            r.spec_bits() == bits,
    {
        XAPCapabilities(bits)
    }

    pub fn bits(&self) -> (r: u32)
        ensures
            r == self.spec_bits(),
    {
        self.0
    }

    /// Whether every bit of `flag` is set.
    pub fn contains(&self, flag: u32) -> (r: bool)
        ensures
            r == (self.spec_bits() & flag == flag),
    {
        self.0 & flag == flag
    }
}

impl XapResponse for XAPCapabilities {
    type Model = u32;

    open spec fn model(&self) -> u32 {
        self.spec_bits()
    }

    open spec fn spec_decode(payload: Seq<u8>) -> Result<u32, XapError> {
        crate::response::spec_decode_u32(payload)
    }

    fn decode(payload: &[u8]) -> (r: Result<XAPCapabilities, XapError>) {
        match crate::response::decode_u32(payload) {
            Ok(v) => Ok(XAPCapabilities(v)),
            Err(e) => Err(e),
        }
    }
}

/// Route 0x0 0x1: the XAP routes the device supports.
#[derive(Debug, Default, Clone, Copy)]
pub struct XAPCapabilitiesQuery;

impl XAPRequest for XAPCapabilitiesQuery {
    type Response = XAPCapabilities;

    open spec fn spec_id() -> Seq<u8> {
        seq![0x0u8, 0x1u8]
    }

    open spec fn spec_is_secure() -> bool {
        false
    }

    open spec fn spec_payload(&self) -> Seq<u8> {
        Seq::empty()
    }

    fn id() -> (r: &'static [u8]) {
        let r: &'static [u8] = &[0x0, 0x1];
        assert(r@ =~= seq![0x0u8, 0x1u8]);
        r
    }

    fn is_secure() -> (r: bool) {
        false
    }

    fn payload(&self) -> (r: Vec<u8>) {
        let r: Vec<u8> = Vec::new();
        assert(r@ =~= Seq::<u8>::empty());
        r
    }
}

/// Subsystems the device enables, one bit per subsystem id.
#[derive(Debug, Clone, Copy, PartialEq, Eq, PartialOrd, Ord, Hash, Structural)]
pub struct XAPEnabledSubsystems(u32);

impl XAPEnabledSubsystems {
    pub const QMK: u32 = 1 << 1;

    pub const KEYBOARD: u32 = 1 << 2;

    pub const USER: u32 = 1 << 3;

    pub const KEYMAP: u32 = 1 << 4;

    pub const REMAPPING: u32 = 1 << 5;

    pub const LIGHTING: u32 = 1 << 6;

    pub closed spec fn spec_bits(&self) -> u32 {
        self.0
    }

    pub fn from_bits_retain(bits: u32) -> (r: XAPEnabledSubsystems)
        ensures
            r.spec_bits() == bits,
    {
        XAPEnabledSubsystems(bits)
    }

    pub fn bits(&self) -> (r: u32)
        ensures
            r == self.spec_bits(),
    {
        self.0
    }

    /// Whether every bit of `flag` is set.
    pub fn contains(&self, flag: u32) -> (r: bool)
        ensures
            r == (self.spec_bits() & flag == flag),
    {
        self.0 & flag == flag
    }
}

impl XapResponse for XAPEnabledSubsystems {
    type Model = u32;

    open spec fn model(&self) -> u32 {
        self.spec_bits()
    }

    open spec fn spec_decode(payload: Seq<u8>) -> Result<u32, XapError> {
        crate::response::spec_decode_u32(payload)
    }

    fn decode(payload: &[u8]) -> (r: Result<XAPEnabledSubsystems, XapError>) {
        match crate::response::decode_u32(payload) {
            Ok(v) => Ok(XAPEnabledSubsystems(v)),
            Err(e) => Err(e),
        }
    }
}

/// Route 0x0 0x2: the subsystems the device enables.
#[derive(Debug, Default, Clone, Copy)]
pub struct XAPEnabledSubsystemsQuery;

impl XAPRequest for XAPEnabledSubsystemsQuery {
    type Response = XAPEnabledSubsystems;

    open spec fn spec_id() -> Seq<u8> {
        seq![0x0u8, 0x2u8]
    }

    open spec fn spec_is_secure() -> bool {
        false
    }

    open spec fn spec_payload(&self) -> Seq<u8> {
        Seq::empty()
    }

    fn id() -> (r: &'static [u8]) {
        let r: &'static [u8] = &[0x0, 0x2];
        assert(r@ =~= seq![0x0u8, 0x2u8]);
        r
    }

    fn is_secure() -> (r: bool) {
        false
    }

    fn payload(&self) -> (r: Vec<u8>) {
        let r: Vec<u8> = Vec::new();
        assert(r@ =~= Seq::<u8>::empty());
        r
    }
}

/// The secure status of a device: locked, unlocking or unlocked.
pub type XAPSecureStatus = XapSecureStatus;

/// Route 0x0 0x3: the secure status.
#[derive(Debug, Default, Clone, Copy)]
pub struct XAPSecureStatusQuery;

impl XAPRequest for XAPSecureStatusQuery {
    type Response = XAPSecureStatus;

    open spec fn spec_id() -> Seq<u8> {
        seq![0x0u8, 0x3u8]
    }

    open spec fn spec_is_secure() -> bool {
        false
    }

    open spec fn spec_payload(&self) -> Seq<u8> {
        Seq::empty()
    }

    fn id() -> (r: &'static [u8]) {
        let r: &'static [u8] = &[0x0, 0x3];
        assert(r@ =~= seq![0x0u8, 0x3u8]);
        r
    }

    fn is_secure() -> (r: bool) {
        false
    }

    fn payload(&self) -> (r: Vec<u8>) {
        let r: Vec<u8> = Vec::new();
        assert(r@ =~= Seq::<u8>::empty());
        r
    }
}

/// Route 0x0 0x4: starts unlocking.
#[derive(Debug, Default, Clone, Copy)]
pub struct XAPSecureStatusUnlock;

impl XAPRequest for XAPSecureStatusUnlock {
    type Response = ();

    open spec fn spec_id() -> Seq<u8> {
        seq![0x0u8, 0x4u8]
    }

    open spec fn spec_is_secure() -> bool {
        false
    }

    open spec fn spec_payload(&self) -> Seq<u8> {
        Seq::empty()
    }

    fn id() -> (r: &'static [u8]) {
        let r: &'static [u8] = &[0x0, 0x4];
        assert(r@ =~= seq![0x0u8, 0x4u8]);
        r
    }

    fn is_secure() -> (r: bool) {
        false
    }

    fn payload(&self) -> (r: Vec<u8>) {
        let r: Vec<u8> = Vec::new();
        assert(r@ =~= Seq::<u8>::empty());
        r
    }
}

/// Route 0x0 0x5: locks the device.
#[derive(Debug, Default, Clone, Copy)]
pub struct XAPSecureStatusLock;

impl XAPRequest for XAPSecureStatusLock {
    type Response = ();

    open spec fn spec_id() -> Seq<u8> {
        seq![0x0u8, 0x5u8]
    }

    open spec fn spec_is_secure() -> bool {
        false
    }

    open spec fn spec_payload(&self) -> Seq<u8> {
        Seq::empty()
    }

    fn id() -> (r: &'static [u8]) {
        let r: &'static [u8] = &[0x0, 0x5];
        assert(r@ =~= seq![0x0u8, 0x5u8]);
        r
    }

    fn is_secure() -> (r: bool) {
        false
    }

    fn payload(&self) -> (r: Vec<u8>) {
        let r: Vec<u8> = Vec::new();
        assert(r@ =~= Seq::<u8>::empty());
        r
    }
}

} // verus!

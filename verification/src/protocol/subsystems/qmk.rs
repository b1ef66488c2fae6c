//! Routes of the QMK subsystem, addressed by route id.
use vstd::prelude::*;

use crate::error::XapError;
use crate::protocol::XAPRequest;
use crate::request::XapResponse;
use crate::protocol::{SecureActionResponse, UTF8StringResponse};
use crate::text::{chars_to_string, push_decimal, push_str, spec_decimal};
verus! {

/// The QMK version of the device.
#[derive(Debug, Default, Clone, Copy, PartialEq, Eq, Structural)]
pub struct QMKVersion(pub u32);

impl XapResponse for QMKVersion {
    type Model = u32;

    open spec fn model(&self) -> u32 {
        self.0
    }

    open spec fn spec_decode(payload: Seq<u8>) -> Result<u32, XapError> {
        crate::response::spec_decode_u32(payload)
    }

    fn decode(payload: &[u8]) -> (r: Result<QMKVersion, XapError>) {
        match crate::response::decode_u32(payload) {
            Ok(v) => Ok(QMKVersion(v)),
            Err(e) => Err(e),
        }
    }
}

/// Route 0x1 0x0: the QMK version.
#[derive(Debug, Default, Clone, Copy)]
pub struct QMKVersionQuery;

impl XAPRequest for QMKVersionQuery {
    type Response = QMKVersion;

    open spec fn spec_id() -> Seq<u8> {
        seq![0x1u8, 0x0u8]
    }

    open spec fn spec_is_secure() -> bool {
        false
    }

    open spec fn spec_payload(&self) -> Seq<u8> {
        Seq::empty()
    }

    fn id() -> (r: &'static [u8]) {
        let r: &'static [u8] = &[0x1, 0x0];
        assert(r@ =~= seq![0x1u8, 0x0u8]);
        r
    }

    fn is_secure() -> (r: bool) {
        false
    }

    fn payload(&self) -> (r: Vec<u8>) {
        let r: Vec<u8> = Vec::new();
        assert(r@ =~= Seq::<u8>::empty());
        r
    }
}

/// Routes of the QMK subsystem the device supports, one bit per route id.
#[derive(Debug, Clone, Copy, PartialEq, Eq, PartialOrd, Ord, Hash, Structural)]
pub struct QMKCapabilities(u32);

impl QMKCapabilities {
    pub const VERSION: u32 = 1 << 0;

    pub const CAPABILITIES: u32 = 1 << 1;

    pub const BOARD_IDS: u32 = 1 << 2;

    pub const BOARD_MANUFACTURER: u32 = 1 << 3;

    pub const PRODUCT_NAME: u32 = 1 << 4;

    pub const CONFIG_BLOB_LENGTH: u32 = 1 << 5;

    pub const CONFIG_BLOB_CHUNK: u32 = 1 << 6;

    pub const JUMP_TO_BOOTLOADER: u32 = 1 << 7;

    pub const HARDWARE_ID: u32 = 1 << 8;

    pub const EEPROM_RESET: u32 = 1 << 9;

    pub closed spec fn spec_bits(&self) -> u32 {
        self.0
    }

    pub fn from_bits_retain(bits: u32) -> (r: QMKCapabilities)
        ensures
            r.spec_bits() == bits,
    {
        QMKCapabilities(bits)
    }

    pub fn bits(&self) -> (r: u32)
        ensures
            r == self.spec_bits(),
    {
        self.0
    }

    /// Whether every bit of `flag` is set.
    pub fn contains(&self, flag: u32) -> (r: bool)
        ensures
            r == (self.spec_bits() & flag == flag),
    {
        self.0 & flag == flag
    }
}

impl XapResponse for QMKCapabilities {
    type Model = u32;

    open spec fn model(&self) -> u32 {
        self.spec_bits()
    }

    open spec fn spec_decode(payload: Seq<u8>) -> Result<u32, XapError> {
        crate::response::spec_decode_u32(payload)
    }

    fn decode(payload: &[u8]) -> (r: Result<QMKCapabilities, XapError>) {
        match crate::response::decode_u32(payload) {
            Ok(v) => Ok(QMKCapabilities(v)),
            Err(e) => Err(e),
        }
    }
}

/// Route 0x1 0x1: the QMK routes the device supports.
#[derive(Debug, Default, Clone, Copy)]
pub struct QMKCapabilitiesQuery;

impl XAPRequest for QMKCapabilitiesQuery {
    type Response = QMKCapabilities;

    open spec fn spec_id() -> Seq<u8> {
        seq![0x1u8, 0x1u8]
    }

    open spec fn spec_is_secure() -> bool {
        false
    }

    open spec fn spec_payload(&self) -> Seq<u8> {
        Seq::empty()
    }

    fn id() -> (r: &'static [u8]) {
        let r: &'static [u8] = &[0x1, 0x1];
        assert(r@ =~= seq![0x1u8, 0x1u8]);
        r
    }

    fn is_secure() -> (r: bool) {
        false
    }

    fn payload(&self) -> (r: Vec<u8>) {
        let r: Vec<u8> = Vec::new();
        assert(r@ =~= Seq::<u8>::empty());
        r
    }
}

/// The USB identifiers of the board and its QMK identifier.
#[derive(Debug, Default, Clone, Copy, PartialEq, Eq, Structural)]
pub struct QMKBoardIdentifiers {
    pub vendor_id: u16,
    pub product_id: u16,
    pub product_version: u16,
    pub qmk_identifier: u32,
}

impl XapResponse for QMKBoardIdentifiers {
    type Model = QMKBoardIdentifiers;

    open spec fn model(&self) -> QMKBoardIdentifiers {
        *self
    }

    open spec fn spec_decode(payload: Seq<u8>) -> Result<QMKBoardIdentifiers, XapError> {
        if payload.len() < 10 {
            Err(XapError::UnexpectedEndOfInput)
        } else {
            Ok(QMKBoardIdentifiers { vendor_id: crate::wire::spec_u16_le(payload, 0), product_id: crate::wire::spec_u16_le(payload, 2), product_version: crate::wire::spec_u16_le(payload, 4), qmk_identifier: crate::wire::spec_u32_le(payload, 6) })
        }
    }

    fn decode(payload: &[u8]) -> (r: Result<QMKBoardIdentifiers, XapError>) {
        if payload.len() < 10 {
            Err(XapError::UnexpectedEndOfInput)
        } else {
            Ok(QMKBoardIdentifiers { vendor_id: crate::wire::read_u16_le(payload, 0), product_id: crate::wire::read_u16_le(payload, 2), product_version: crate::wire::read_u16_le(payload, 4), qmk_identifier: crate::wire::read_u32_le(payload, 6) })
        }
    }
}

/// Route 0x1 0x2: the board identifiers.
#[derive(Debug, Default, Clone, Copy)]
pub struct QMKBoardIdentifiersQuery;

impl XAPRequest for QMKBoardIdentifiersQuery {
    type Response = QMKBoardIdentifiers;

    open spec fn spec_id() -> Seq<u8> {
        seq![0x1u8, 0x2u8]
    }

    open spec fn spec_is_secure() -> bool {
        false
    }

    open spec fn spec_payload(&self) -> Seq<u8> {
        Seq::empty()
    }

    fn id() -> (r: &'static [u8]) {
        let r: &'static [u8] = &[0x1, 0x2];
        assert(r@ =~= seq![0x1u8, 0x2u8]);
        r
    }

    fn is_secure() -> (r: bool) {
        false
    }

    fn payload(&self) -> (r: Vec<u8>) {
        let r: Vec<u8> = Vec::new();
        assert(r@ =~= Seq::<u8>::empty());
        r
    }
}

/// Route 0x1 0x3: the board manufacturer.
#[derive(Debug, Default, Clone, Copy)]
pub struct QMKBoardManufacturerQuery;

impl XAPRequest for QMKBoardManufacturerQuery {
    type Response = UTF8StringResponse;

    open spec fn spec_id() -> Seq<u8> {
        seq![0x1u8, 0x3u8]
    }

    open spec fn spec_is_secure() -> bool {
        false
    }

    open spec fn spec_payload(&self) -> Seq<u8> {
        Seq::empty()
    }

    fn id() -> (r: &'static [u8]) {
        let r: &'static [u8] = &[0x1, 0x3];
        assert(r@ =~= seq![0x1u8, 0x3u8]);
        r
    }

    fn is_secure() -> (r: bool) {
        false
    }

    fn payload(&self) -> (r: Vec<u8>) {
        let r: Vec<u8> = Vec::new();
        assert(r@ =~= Seq::<u8>::empty());
        r
    }
}

/// Route 0x1 0x4: the product name.
#[derive(Debug, Default, Clone, Copy)]
pub struct QMKProductNameQuery;

impl XAPRequest for QMKProductNameQuery {
    type Response = UTF8StringResponse;

    open spec fn spec_id() -> Seq<u8> {
        seq![0x1u8, 0x4u8]
    }

    open spec fn spec_is_secure() -> bool {
        false
    }

    open spec fn spec_payload(&self) -> Seq<u8> {
        Seq::empty()
    }

    fn id() -> (r: &'static [u8]) {
        let r: &'static [u8] = &[0x1, 0x4];
        assert(r@ =~= seq![0x1u8, 0x4u8]);
        r
    }

    fn is_secure() -> (r: bool) {
        false
    }

    fn payload(&self) -> (r: Vec<u8>) {
        let r: Vec<u8> = Vec::new();
        assert(r@ =~= Seq::<u8>::empty());
        r
    }
}

/// The length of the compressed configuration blob.
#[derive(Debug, Default, Clone, Copy, PartialEq, Eq, Structural)]
pub struct QMKConfigBlobLength(pub u16);

impl XapResponse for QMKConfigBlobLength {
    type Model = u16;

    open spec fn model(&self) -> u16 {
        self.0
    }

    open spec fn spec_decode(payload: Seq<u8>) -> Result<u16, XapError> {
        crate::response::spec_decode_u16(payload)
    }

    fn decode(payload: &[u8]) -> (r: Result<QMKConfigBlobLength, XapError>) {
        match crate::response::decode_u16(payload) {
            Ok(v) => Ok(QMKConfigBlobLength(v)),
            Err(e) => Err(e),
        }
    }
}

/// Route 0x1 0x5: the configuration blob length.
#[derive(Debug, Default, Clone, Copy)]
pub struct QMKConfigBlobLengthQuery;

impl XAPRequest for QMKConfigBlobLengthQuery {
    type Response = QMKConfigBlobLength;

    open spec fn spec_id() -> Seq<u8> {
        seq![0x1u8, 0x5u8]
    }

    open spec fn spec_is_secure() -> bool {
        false
    }

    open spec fn spec_payload(&self) -> Seq<u8> {
        Seq::empty()
    }

    fn id() -> (r: &'static [u8]) {
        let r: &'static [u8] = &[0x1, 0x5];
        assert(r@ =~= seq![0x1u8, 0x5u8]);
        r
    }

    fn is_secure() -> (r: bool) {
        false
    }

    fn payload(&self) -> (r: Vec<u8>) {
        let r: Vec<u8> = Vec::new();
        assert(r@ =~= Seq::<u8>::empty());
        r
    }
}

/// A chunk of the compressed configuration blob.
#[derive(Debug, Clone, Copy)]
pub struct ConfigBlobChunk(pub [u8; 32]);

impl XapResponse for ConfigBlobChunk {
    type Model = Seq<u8>;

    open spec fn model(&self) -> Seq<u8> {
        self.0@
    }

    open spec fn spec_decode(payload: Seq<u8>) -> Result<Seq<u8>, XapError> {
        crate::spec::qmk::QmkConfigBlobChunkResponse::spec_decode(payload)
    }

    fn decode(payload: &[u8]) -> (r: Result<ConfigBlobChunk, XapError>) {
        match crate::spec::qmk::QmkConfigBlobChunkResponse::decode(payload) {
            Ok(chunk) => Ok(ConfigBlobChunk(chunk.0)),
            Err(e) => Err(e),
        }
    }
}
/// An offset into the configuration blob.
#[derive(Debug, Default, Clone, Copy, PartialEq, Eq, Structural)]
pub struct ConfigBlobOffset(u16);

impl ConfigBlobOffset {
    /// The offset, little-endian.
    pub closed spec fn spec_encode(&self) -> Seq<u8> {
        crate::wire::spec_u16_le_bytes(self.0)
    }

    pub fn encode(&self) -> (r: Vec<u8>)
        ensures
            r@ == self.spec_encode(),
    {
        let mut out: Vec<u8> = Vec::new();
        crate::wire::push_u16_le(&mut out, self.0);
        out
    }
}

impl XapResponse for ConfigBlobOffset {
    type Model = u16;

    closed spec fn model(&self) -> u16 {
        self.0
    }

    open spec fn spec_decode(payload: Seq<u8>) -> Result<u16, XapError> {
        crate::response::spec_decode_u16(payload)
    }

    fn decode(payload: &[u8]) -> (r: Result<ConfigBlobOffset, XapError>) {
        match crate::response::decode_u16(payload) {
            Ok(v) => Ok(ConfigBlobOffset(v)),
            Err(e) => Err(e),
        }
    }
}
/// Route 0x1 0x6: the configuration blob chunk at an offset.
#[derive(Debug, Default, Clone, Copy)]
pub struct ConfigBlobChunkQuery(pub u16);

impl XAPRequest for ConfigBlobChunkQuery {
    type Response = ConfigBlobChunk;

    open spec fn spec_id() -> Seq<u8> {
        seq![0x1u8, 0x6u8]
    }

    open spec fn spec_is_secure() -> bool {
        false
    }

    open spec fn spec_payload(&self) -> Seq<u8> {
        crate::wire::spec_u16_le_bytes(self.0)
    }

    fn id() -> (r: &'static [u8]) {
        let r: &'static [u8] = &[0x1, 0x6];
        assert(r@ =~= seq![0x1u8, 0x6u8]);
        r
    }

    fn is_secure() -> (r: bool) {
        false
    }

    fn payload(&self) -> (r: Vec<u8>) {
        let mut r: Vec<u8> = Vec::new();
        crate::wire::push_u16_le(&mut r, self.0);
        assert(r@ =~= crate::wire::spec_u16_le_bytes(self.0));
        r
    }
}

/// Route 0x1 0x7: jumps to the bootloader; a secure route.
#[derive(Debug, Default, Clone, Copy)]
pub struct QMKJumpToBootloaderQuery;

impl XAPRequest for QMKJumpToBootloaderQuery {
    type Response = SecureActionResponse;

    open spec fn spec_id() -> Seq<u8> {
        seq![0x1u8, 0x7u8]
    }

    open spec fn spec_is_secure() -> bool {
        true
    }

    open spec fn spec_payload(&self) -> Seq<u8> {
        Seq::empty()
    }

    fn id() -> (r: &'static [u8]) {
        let r: &'static [u8] = &[0x1, 0x7];
        assert(r@ =~= seq![0x1u8, 0x7u8]);
        r
    }

    fn is_secure() -> (r: bool) {
        true
    }

    fn payload(&self) -> (r: Vec<u8>) {
        let r: Vec<u8> = Vec::new();
        assert(r@ =~= Seq::<u8>::empty());
        r
    }
}

/// The hardware identifier of the device: four 32 bit words.
#[derive(Debug, Default, Clone, Copy)]
pub struct QMKHardwareIdentifier(pub [u32; 4]);

impl QMKHardwareIdentifier {
    /// The words in decimal, as a list: `[a, b, c, d]`.
    pub open spec fn spec_display(words: Seq<u32>) -> Seq<char> {
        "["@ + spec_decimal(words[0] as nat) + ", "@ + spec_decimal(words[1] as nat) + ", "@
            + spec_decimal(words[2] as nat) + ", "@ + spec_decimal(words[3] as nat) + "]"@
    }

    pub fn to_display_string(&self) -> (s: String)
        ensures
            s@ == Self::spec_display(self.0@),
    {
        let mut out: Vec<char> = Vec::new();
        push_str(&mut out, "[");
        push_decimal(&mut out, self.0[0] as u64);
        push_str(&mut out, ", ");
        push_decimal(&mut out, self.0[1] as u64);
        push_str(&mut out, ", ");
        push_decimal(&mut out, self.0[2] as u64);
        push_str(&mut out, ", ");
        push_decimal(&mut out, self.0[3] as u64);
        push_str(&mut out, "]");
        proof {
            reveal_strlit("[");
            reveal_strlit(", ");
            reveal_strlit("]");
        }
        assert(out@ =~= Self::spec_display(self.0@));
        chars_to_string(out)
    }
}

impl XapResponse for QMKHardwareIdentifier {
    type Model = Seq<u32>;

    open spec fn model(&self) -> Seq<u32> {
        self.0@
    }

    open spec fn spec_decode(payload: Seq<u8>) -> Result<Seq<u32>, XapError> {
        crate::spec::qmk::QmkHardwareIdentifierResponse::spec_decode(payload)
    }

    fn decode(payload: &[u8]) -> (r: Result<QMKHardwareIdentifier, XapError>) {
        match crate::spec::qmk::QmkHardwareIdentifierResponse::decode(payload) {
            Ok(words) => Ok(QMKHardwareIdentifier(words.0)),
            Err(e) => Err(e),
        }
    }
}
/// Route 0x1 0x8: the hardware identifier.
#[derive(Debug, Default, Clone, Copy)]
pub struct QMKHardwareIdentifierQuery;

impl XAPRequest for QMKHardwareIdentifierQuery {
    type Response = QMKHardwareIdentifier;

    open spec fn spec_id() -> Seq<u8> {
        seq![0x1u8, 0x8u8]
    }

    open spec fn spec_is_secure() -> bool {
        false
    }

    open spec fn spec_payload(&self) -> Seq<u8> {
        Seq::empty()
    }

    fn id() -> (r: &'static [u8]) {
        let r: &'static [u8] = &[0x1, 0x8];
        assert(r@ =~= seq![0x1u8, 0x8u8]);
        r
    }

    fn is_secure() -> (r: bool) {
        false
    }

    fn payload(&self) -> (r: Vec<u8>) {
        let r: Vec<u8> = Vec::new();
        assert(r@ =~= Seq::<u8>::empty());
        r
    }
}

/// Route 0x1 0x9: reinitialises the EEPROM; a secure route.
#[derive(Debug, Default, Clone, Copy)]
pub struct QMKReinitializeEepromQuery;

impl XAPRequest for QMKReinitializeEepromQuery {
    type Response = SecureActionResponse;

    open spec fn spec_id() -> Seq<u8> {
        seq![0x1u8, 0x9u8]
    }

    open spec fn spec_is_secure() -> bool {
        true
    }

    open spec fn spec_payload(&self) -> Seq<u8> {
        Seq::empty()
    }

    fn id() -> (r: &'static [u8]) {
        let r: &'static [u8] = &[0x1, 0x9];
        assert(r@ =~= seq![0x1u8, 0x9u8]);
        r
    }

    fn is_secure() -> (r: bool) {
        true
    }

    fn payload(&self) -> (r: Vec<u8>) {
        let r: Vec<u8> = Vec::new();
        assert(r@ =~= Seq::<u8>::empty());
        r
    }
}

} // verus!

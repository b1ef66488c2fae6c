//! Routes of the QMK subsystem: board identity, configuration blob and maintenance actions.
use vstd::prelude::*;

use crate::error::XapError;
use crate::request::{XapRequest, XapResponse};
use crate::response::UTF8String;

verus! {

/// Version
///
/// QMK protocol version query.
///
/// * Returns the BCD-encoded version in the format of XX.YY.ZZZZ => `0xXXYYZZZZ`
/// * e.g. 3.2.115 will match `0x03020115`, or bytes {0x15,0x01,0x02,0x03}.
#[derive(Debug, Default, Clone, Copy)]
pub struct QmkVersionRequest(pub ());

impl XapRequest for QmkVersionRequest {
    type Response = QmkVersionResponse;

    open spec fn spec_id() -> Seq<u8> {
        seq![0x01u8, 0x00u8]
    }

    open spec fn spec_xap_version() -> u32 {
        0x00000100
    }

    open spec fn spec_payload(&self) -> Seq<u8> {
        Seq::empty()
    }

    fn id() -> (r: &'static [u8]) {
        let r: &'static [u8] = &[0x01, 0x00];
        assert(r@ =~= seq![0x01u8, 0x00u8]);
        r
    }

    fn xap_version() -> (r: u32) {
        0x00000100
    }

    fn payload(&self) -> (r: Vec<u8>) {
        let r: Vec<u8> = Vec::new();
        assert(r@ =~= Seq::<u8>::empty());
        r
    }
}

#[derive(Debug, Default, Clone, Copy, PartialEq, Eq, Structural)]
pub struct QmkVersionResponse(pub u32);

impl XapResponse for QmkVersionResponse {
    type Model = u32;

    open spec fn model(&self) -> u32 {
        self.0
    }

    open spec fn spec_decode(payload: Seq<u8>) -> Result<u32, XapError> {
        crate::response::spec_decode_u32(payload)
    }

    fn decode(payload: &[u8]) -> (r: Result<QmkVersionResponse, XapError>) {
        match crate::response::decode_u32(payload) {
            Ok(v) => Ok(QmkVersionResponse(v)),
            Err(e) => Err(e),
        }
    }
}

/// capabilities
///
/// QMK subsystem capabilities query. Each bit should be considered as a "usable" route within this subsystem.
#[derive(Debug, Default, Clone, Copy)]
pub struct QmkCapabilitiesRequest(pub ());

impl XapRequest for QmkCapabilitiesRequest {
    type Response = QmkCapabilitiesFlags;

    open spec fn spec_id() -> Seq<u8> {
        seq![0x01u8, 0x01u8]
    }

    open spec fn spec_xap_version() -> u32 {
        0x00000100
    }

    open spec fn spec_payload(&self) -> Seq<u8> {
        Seq::empty()
    }

    fn id() -> (r: &'static [u8]) {
        let r: &'static [u8] = &[0x01, 0x01];
        assert(r@ =~= seq![0x01u8, 0x01u8]);
        r
    }

    fn xap_version() -> (r: u32) {
        0x00000100
    }

    fn payload(&self) -> (r: Vec<u8>) {
        let r: Vec<u8> = Vec::new();
        assert(r@ =~= Seq::<u8>::empty());
        r
    }
}

/// Routes of the subsystem that the device supports, one bit per route id.
#[derive(Debug, Clone, Copy, PartialEq, Eq, PartialOrd, Ord, Hash, Structural)]
pub struct QmkCapabilitiesFlags(u32);

impl QmkCapabilitiesFlags {
    #[allow(non_upper_case_globals)]
    pub const Version: u32 = 1 << 0;

    #[allow(non_upper_case_globals)]
    pub const Capabilities: u32 = 1 << 1;

    #[allow(non_upper_case_globals)]
    pub const BoardIdentifiers: u32 = 1 << 2;

    #[allow(non_upper_case_globals)]
    pub const BoardManufacturer: u32 = 1 << 3;

    #[allow(non_upper_case_globals)]
    pub const ProductName: u32 = 1 << 4;

    #[allow(non_upper_case_globals)]
    pub const ConfigBlobLength: u32 = 1 << 5;

    #[allow(non_upper_case_globals)]
    pub const ConfigBlobChunk: u32 = 1 << 6;

    #[allow(non_upper_case_globals)]
    pub const JumpToBootloader: u32 = 1 << 7;

    #[allow(non_upper_case_globals)]
    pub const HardwareIdentifier: u32 = 1 << 8;

    #[allow(non_upper_case_globals)]
    pub const ReinitializeEeprom: u32 = 1 << 9;

    pub closed spec fn spec_bits(&self) -> u32 {
        self.0
    }

    pub fn from_bits_retain(bits: u32) -> (r: QmkCapabilitiesFlags)
        ensures
            r.spec_bits() == bits,
    {
        QmkCapabilitiesFlags(bits)
    }

    pub fn bits(&self) -> (r: u32)
        ensures
            r == self.spec_bits(),
    {
        self.0
    }

    /// Whether every bit of `flag` is set.
    pub fn contains(&self, flag: u32) -> (r: bool)
        ensures
            r == (self.spec_bits() & flag == flag),
    {
        self.0 & flag == flag
    }
}

impl XapResponse for QmkCapabilitiesFlags {
    type Model = u32;

    open spec fn model(&self) -> u32 {
        self.spec_bits()
    }

    open spec fn spec_decode(payload: Seq<u8>) -> Result<u32, XapError> {
        crate::response::spec_decode_u32(payload)
    }

    fn decode(payload: &[u8]) -> (r: Result<QmkCapabilitiesFlags, XapError>) {
        match crate::response::decode_u32(payload) {
            Ok(v) => Ok(QmkCapabilitiesFlags(v)),
            Err(e) => Err(e),
        }
    }
}

/// Board identifiers
///
/// Retrieves the set of identifying information for the board.
#[derive(Debug, Default, Clone, Copy)]
pub struct QmkBoardIdentifiersRequest(pub ());

impl XapRequest for QmkBoardIdentifiersRequest {
    type Response = QmkBoardIdentifiersResponse;

    open spec fn spec_id() -> Seq<u8> {
        seq![0x01u8, 0x02u8]
    }

    open spec fn spec_xap_version() -> u32 {
        0x00000100
    }

    open spec fn spec_payload(&self) -> Seq<u8> {
        Seq::empty()
    }

    fn id() -> (r: &'static [u8]) {
        let r: &'static [u8] = &[0x01, 0x02];
        assert(r@ =~= seq![0x01u8, 0x02u8]);
        r
    }

    fn xap_version() -> (r: u32) {
        0x00000100
    }

    fn payload(&self) -> (r: Vec<u8>) {
        let r: Vec<u8> = Vec::new();
        assert(r@ =~= Seq::<u8>::empty());
        r
    }
}

#[derive(Debug, Default, Clone, Copy, PartialEq, Eq, Structural)]
pub struct QmkBoardIdentifiersResponse {
    pub vendor_id: u16,
    pub product_id: u16,
    pub product_version: u16,
    pub qmk_unique_identifier: u32,
}

impl QmkBoardIdentifiersResponse {
}

impl XapResponse for QmkBoardIdentifiersResponse {
    type Model = QmkBoardIdentifiersResponse;

    open spec fn model(&self) -> QmkBoardIdentifiersResponse {
        *self
    }

    open spec fn spec_decode(payload: Seq<u8>) -> Result<QmkBoardIdentifiersResponse, XapError> {
        if payload.len() < 10 {
            Err(XapError::UnexpectedEndOfInput)
        } else {
            Ok(QmkBoardIdentifiersResponse { vendor_id: crate::wire::spec_u16_le(payload, 0), product_id: crate::wire::spec_u16_le(payload, 2), product_version: crate::wire::spec_u16_le(payload, 4), qmk_unique_identifier: crate::wire::spec_u32_le(payload, 6) })
        }
    }

    fn decode(payload: &[u8]) -> (r: Result<QmkBoardIdentifiersResponse, XapError>) {
        if payload.len() < 10 {
            Err(XapError::UnexpectedEndOfInput)
        } else {
            Ok(QmkBoardIdentifiersResponse { vendor_id: crate::wire::read_u16_le(payload, 0), product_id: crate::wire::read_u16_le(payload, 2), product_version: crate::wire::read_u16_le(payload, 4), qmk_unique_identifier: crate::wire::read_u32_le(payload, 6) })
        }
    }
}

/// Board Manufacturer
///
/// Retrieves the name of the manufacturer
#[derive(Debug, Default, Clone, Copy)]
pub struct QmkBoardManufacturerRequest(pub ());

impl XapRequest for QmkBoardManufacturerRequest {
    type Response = QmkBoardManufacturerResponse;

    open spec fn spec_id() -> Seq<u8> {
        seq![0x01u8, 0x03u8]
    }

    open spec fn spec_xap_version() -> u32 {
        0x00000100
    }

    open spec fn spec_payload(&self) -> Seq<u8> {
        Seq::empty()
    }

    fn id() -> (r: &'static [u8]) {
        let r: &'static [u8] = &[0x01, 0x03];
        assert(r@ =~= seq![0x01u8, 0x03u8]);
        r
    }

    fn xap_version() -> (r: u32) {
        0x00000100
    }

    fn payload(&self) -> (r: Vec<u8>) {
        let r: Vec<u8> = Vec::new();
        assert(r@ =~= Seq::<u8>::empty());
        r
    }
}

#[derive(Debug, Default, Clone)]
pub struct QmkBoardManufacturerResponse(pub UTF8String);

impl XapResponse for QmkBoardManufacturerResponse {
    type Model = Seq<char>;

    open spec fn model(&self) -> Seq<char> {
        self.0.0@
    }

    open spec fn spec_decode(payload: Seq<u8>) -> Result<Seq<char>, XapError> {
        UTF8String::spec_decode(payload)
    }

    fn decode(payload: &[u8]) -> (r: Result<QmkBoardManufacturerResponse, XapError>) {
        match UTF8String::decode(payload) {
            Ok(s) => Ok(QmkBoardManufacturerResponse(s)),
            Err(e) => Err(e),
        }
    }
}

/// Product Name
///
/// Retrieves the product name
#[derive(Debug, Default, Clone, Copy)]
pub struct QmkProductNameRequest(pub ());

impl XapRequest for QmkProductNameRequest {
    type Response = QmkProductNameResponse;

    open spec fn spec_id() -> Seq<u8> {
        seq![0x01u8, 0x04u8]
    }

    open spec fn spec_xap_version() -> u32 {
        0x00000100
    }

    open spec fn spec_payload(&self) -> Seq<u8> {
        Seq::empty()
    }

    fn id() -> (r: &'static [u8]) {
        let r: &'static [u8] = &[0x01, 0x04];
        assert(r@ =~= seq![0x01u8, 0x04u8]);
        r
    }

    fn xap_version() -> (r: u32) {
        0x00000100
    }

    fn payload(&self) -> (r: Vec<u8>) {
        let r: Vec<u8> = Vec::new();
        assert(r@ =~= Seq::<u8>::empty());
        r
    }
}

#[derive(Debug, Default, Clone)]
pub struct QmkProductNameResponse(pub UTF8String);

impl XapResponse for QmkProductNameResponse {
    type Model = Seq<char>;

    open spec fn model(&self) -> Seq<char> {
        self.0.0@
    }

    open spec fn spec_decode(payload: Seq<u8>) -> Result<Seq<char>, XapError> {
        UTF8String::spec_decode(payload)
    }

    fn decode(payload: &[u8]) -> (r: Result<QmkProductNameResponse, XapError>) {
        match UTF8String::decode(payload) {
            Ok(s) => Ok(QmkProductNameResponse(s)),
            Err(e) => Err(e),
        }
    }
}

/// Config Blob Length
///
/// Retrieves the length of the configuration data bundled within the firmware
#[derive(Debug, Default, Clone, Copy)]
pub struct QmkConfigBlobLengthRequest(pub ());

impl XapRequest for QmkConfigBlobLengthRequest {
    type Response = QmkConfigBlobLengthResponse;

    open spec fn spec_id() -> Seq<u8> {
        seq![0x01u8, 0x05u8]
    }

    open spec fn spec_xap_version() -> u32 {
        0x00000100
    }

    open spec fn spec_payload(&self) -> Seq<u8> {
        Seq::empty()
    }

    fn id() -> (r: &'static [u8]) {
        let r: &'static [u8] = &[0x01, 0x05];
        assert(r@ =~= seq![0x01u8, 0x05u8]);
        r
    }

    fn xap_version() -> (r: u32) {
        0x00000100
    }

    fn payload(&self) -> (r: Vec<u8>) {
        let r: Vec<u8> = Vec::new();
        assert(r@ =~= Seq::<u8>::empty());
        r
    }
}

#[derive(Debug, Default, Clone, Copy, PartialEq, Eq, Structural)]
pub struct QmkConfigBlobLengthResponse(pub u16);

impl XapResponse for QmkConfigBlobLengthResponse {
    type Model = u16;

    open spec fn model(&self) -> u16 {
        self.0
    }

    open spec fn spec_decode(payload: Seq<u8>) -> Result<u16, XapError> {
        crate::response::spec_decode_u16(payload)
    }

    fn decode(payload: &[u8]) -> (r: Result<QmkConfigBlobLengthResponse, XapError>) {
        match crate::response::decode_u16(payload) {
            Ok(v) => Ok(QmkConfigBlobLengthResponse(v)),
            Err(e) => Err(e),
        }
    }
}

/// Config Blob Chunk
///
/// Retrieves a chunk of the configuration data bundled within the firmware
#[derive(Debug, Default, Clone, Copy)]
pub struct QmkConfigBlobChunkRequest(pub u16);

impl XapRequest for QmkConfigBlobChunkRequest {
    type Response = QmkConfigBlobChunkResponse;

    open spec fn spec_id() -> Seq<u8> {
        seq![0x01u8, 0x06u8]
    }

    open spec fn spec_xap_version() -> u32 {
        0x00000100
    }

    open spec fn spec_payload(&self) -> Seq<u8> {
        crate::wire::spec_u16_le_bytes(self.0)
    }

    fn id() -> (r: &'static [u8]) {
        let r: &'static [u8] = &[0x01, 0x06];
        assert(r@ =~= seq![0x01u8, 0x06u8]);
        r
    }

    fn xap_version() -> (r: u32) {
        0x00000100
    }

    fn payload(&self) -> (r: Vec<u8>) {
        let mut r: Vec<u8> = Vec::new();
        crate::wire::push_u16_le(&mut r, self.0);
        assert(r@ =~= crate::wire::spec_u16_le_bytes(self.0));
        r
    }
}

#[derive(Debug, Clone, Copy)]
pub struct QmkConfigBlobChunkResponse(pub [u8; 32]);

impl Default for QmkConfigBlobChunkResponse {
    fn default() -> (r: QmkConfigBlobChunkResponse)
        ensures
            r.0@ == Seq::new(32, |i: int| 0u8),
    {
        let r = QmkConfigBlobChunkResponse([0u8; 32]);
        assert(r.0@ =~= Seq::new(32, |i: int| 0u8));
        r
    }
}

impl XapResponse for QmkConfigBlobChunkResponse {
    type Model = Seq<u8>;

    open spec fn model(&self) -> Seq<u8> {
        self.0@
    }

    open spec fn spec_decode(payload: Seq<u8>) -> Result<Seq<u8>, XapError> {
        if payload.len() < 32 {
            Err(XapError::UnexpectedEndOfInput)
        } else {
            Ok(payload.subrange(0, 32))
        }
    }

    fn decode(payload: &[u8]) -> (r: Result<QmkConfigBlobChunkResponse, XapError>) {
        if payload.len() < 32 {
            return Err(XapError::UnexpectedEndOfInput);
        }
        let mut chunk: [u8; 32] = [0u8; 32];
        let mut i: usize = 0;
        while i < 32
            invariant
                i <= 32,
                32 <= payload@.len(),
                chunk@.len() == 32,
                forall|k: int| 0 <= k < i ==> chunk@[k] == payload@[k],
            decreases 32 - i,
        {
            chunk.set(i, payload[i]);
            i = i + 1;
        }
        assert(chunk@ =~= payload@.subrange(0, 32));
        Ok(QmkConfigBlobChunkResponse(chunk))
    }
}

/// Jump to bootloader
///
/// Jump to bootloader
///
/// May not be present - if QMK capabilities query returns "true", then jump to bootloader is supported
///
/// * 0 means secure routes are disabled, and should be considered as a failure
/// * 1 means successful, board will jump to bootloader
#[derive(Debug, Default, Clone, Copy)]
pub struct QmkJumpToBootloaderRequest(pub ());

impl XapRequest for QmkJumpToBootloaderRequest {
    type Response = QmkJumpToBootloaderResponse;

    open spec fn spec_id() -> Seq<u8> {
        seq![0x01u8, 0x07u8]
    }

    open spec fn spec_xap_version() -> u32 {
        0x00000100
    }

    open spec fn spec_payload(&self) -> Seq<u8> {
        Seq::empty()
    }

    fn id() -> (r: &'static [u8]) {
        let r: &'static [u8] = &[0x01, 0x07];
        assert(r@ =~= seq![0x01u8, 0x07u8]);
        r
    }

    fn xap_version() -> (r: u32) {
        0x00000100
    }

    fn payload(&self) -> (r: Vec<u8>) {
        let r: Vec<u8> = Vec::new();
        assert(r@ =~= Seq::<u8>::empty());
        r
    }
}

#[derive(Debug, Default, Clone, Copy, PartialEq, Eq, Structural)]
pub struct QmkJumpToBootloaderResponse(pub u8);

impl XapResponse for QmkJumpToBootloaderResponse {
    type Model = u8;

    open spec fn model(&self) -> u8 {
        self.0
    }

    open spec fn spec_decode(payload: Seq<u8>) -> Result<u8, XapError> {
        crate::response::spec_decode_u8(payload)
    }

    fn decode(payload: &[u8]) -> (r: Result<QmkJumpToBootloaderResponse, XapError>) {
        match crate::response::decode_u8(payload) {
            Ok(v) => Ok(QmkJumpToBootloaderResponse(v)),
            Err(e) => Err(e),
        }
    }
}

/// Hardware Identifier
///
/// Retrieves a unique identifier for the board.
#[derive(Debug, Default, Clone, Copy)]
pub struct QmkHardwareIdentifierRequest(pub ());

impl XapRequest for QmkHardwareIdentifierRequest {
    type Response = QmkHardwareIdentifierResponse;

    open spec fn spec_id() -> Seq<u8> {
        seq![0x01u8, 0x08u8]
    }

    open spec fn spec_xap_version() -> u32 {
        0x00000100
    }

    open spec fn spec_payload(&self) -> Seq<u8> {
        Seq::empty()
    }

    fn id() -> (r: &'static [u8]) {
        let r: &'static [u8] = &[0x01, 0x08];
        assert(r@ =~= seq![0x01u8, 0x08u8]);
        r
    }

    fn xap_version() -> (r: u32) {
        0x00000100
    }

    fn payload(&self) -> (r: Vec<u8>) {
        let r: Vec<u8> = Vec::new();
        assert(r@ =~= Seq::<u8>::empty());
        r
    }
}

#[derive(Debug, Default, Clone, Copy)]
pub struct QmkHardwareIdentifierResponse(pub [u32; 4]);

impl XapResponse for QmkHardwareIdentifierResponse {
    type Model = Seq<u32>;

    open spec fn model(&self) -> Seq<u32> {
        self.0@
    }

    open spec fn spec_decode(payload: Seq<u8>) -> Result<Seq<u32>, XapError> {
        if payload.len() < 16 {
            Err(XapError::UnexpectedEndOfInput)
        } else {
            Ok(
                seq![
                    crate::wire::spec_u32_le(payload, 0),
                    crate::wire::spec_u32_le(payload, 4),
                    crate::wire::spec_u32_le(payload, 8),
                    crate::wire::spec_u32_le(payload, 12),
                ],
            )
        }
    }

    fn decode(payload: &[u8]) -> (r: Result<QmkHardwareIdentifierResponse, XapError>) {
        if payload.len() < 16 {
            return Err(XapError::UnexpectedEndOfInput);
        }
        let words: [u32; 4] = [
            crate::wire::read_u32_le(payload, 0),
            crate::wire::read_u32_le(payload, 4),
            crate::wire::read_u32_le(payload, 8),
            crate::wire::read_u32_le(payload, 12),
        ];
        assert(words@ =~= seq![
            crate::wire::spec_u32_le(payload@, 0),
            crate::wire::spec_u32_le(payload@, 4),
            crate::wire::spec_u32_le(payload@, 8),
            crate::wire::spec_u32_le(payload@, 12),
        ]);
        Ok(QmkHardwareIdentifierResponse(words))
    }
}

/// Reinitialize EEPROM
///
/// Reinitializes the keyboard's EEPROM (persistent memory)
///
/// May not be present - if QMK capabilities query returns "true", then reinitialize is supported
///
/// * 0 means secure routes are disabled, and should be considered as a failure
/// * 1 means successful, board will reinitialize and then reboot
#[derive(Debug, Default, Clone, Copy)]
pub struct QmkReinitializeEepromRequest(pub ());

impl XapRequest for QmkReinitializeEepromRequest {
    type Response = QmkReinitializeEepromResponse;

    open spec fn spec_id() -> Seq<u8> {
        seq![0x01u8, 0x09u8]
    }

    open spec fn spec_xap_version() -> u32 {
        0x00000100
    }

    open spec fn spec_payload(&self) -> Seq<u8> {
        Seq::empty()
    }

    fn id() -> (r: &'static [u8]) {
        let r: &'static [u8] = &[0x01, 0x09];
        assert(r@ =~= seq![0x01u8, 0x09u8]);
        r
    }

    fn xap_version() -> (r: u32) {
        0x00000100
    }

    fn payload(&self) -> (r: Vec<u8>) {
        let r: Vec<u8> = Vec::new();
        assert(r@ =~= Seq::<u8>::empty());
        r
    }
}

#[derive(Debug, Default, Clone, Copy, PartialEq, Eq, Structural)]
pub struct QmkReinitializeEepromResponse(pub u8);

impl XapResponse for QmkReinitializeEepromResponse {
    type Model = u8;

    open spec fn model(&self) -> u8 {
        self.0
    }

    open spec fn spec_decode(payload: Seq<u8>) -> Result<u8, XapError> {
        crate::response::spec_decode_u8(payload)
    }

    fn decode(payload: &[u8]) -> (r: Result<QmkReinitializeEepromResponse, XapError>) {
        match crate::response::decode_u8(payload) {
            Ok(v) => Ok(QmkReinitializeEepromResponse(v)),
            Err(e) => Err(e),
        }
    }
}

} // verus!

//! Routes of the QMK subsystem, with responses named after the route.
use vstd::prelude::*;

use crate::error::XapError;
use crate::request::{XapRequest, XapResponse};
use crate::response::UTF8String;

verus! {

/// Version Query
///
/// QMK protocol version query.
///
/// * Returns the BCD-encoded version in the format of XX.YY.ZZZZ => `0xXXYYZZZZ`
///     * e.g. 3.2.115 will match `0x03020115`, or bytes {0x15,0x01,0x02,0x03}.
#[derive(Debug, Default, Clone, Copy)]
pub struct VersionQueryRequest(pub ());

impl XapRequest for VersionQueryRequest {
    type Response = VersionQueryResponseArg;

    open spec fn spec_id() -> Seq<u8> {
        seq![0x01u8, 0x00u8]
    }

    open spec fn spec_xap_version() -> u32 {
        0x00000100
    }

    open spec fn spec_payload(&self) -> Seq<u8> {
        Seq::empty()
    }

    fn id() -> (r: &'static [u8]) {
        let r: &'static [u8] = &[0x01, 0x00];
        assert(r@ =~= seq![0x01u8, 0x00u8]);
        r
    }

    fn xap_version() -> (r: u32) {
        0x00000100
    }

    fn payload(&self) -> (r: Vec<u8>) {
        let r: Vec<u8> = Vec::new();
        assert(r@ =~= Seq::<u8>::empty());
        r
    }
}

#[derive(Debug, Default, Clone, Copy, PartialEq, Eq, Structural)]
pub struct VersionQueryResponseArg(pub u32);

impl XapResponse for VersionQueryResponseArg {
    type Model = u32;

    open spec fn model(&self) -> u32 {
        self.0
    }

    open spec fn spec_decode(payload: Seq<u8>) -> Result<u32, XapError> {
        crate::response::spec_decode_u32(payload)
    }

    fn decode(payload: &[u8]) -> (r: Result<VersionQueryResponseArg, XapError>) {
        match crate::response::decode_u32(payload) {
            Ok(v) => Ok(VersionQueryResponseArg(v)),
            Err(e) => Err(e),
        }
    }
}

/// Capabilities Query
///
/// QMK subsystem capabilities query. Each bit should be considered as a "usable" route within this subsystem.
#[derive(Debug, Default, Clone, Copy)]
pub struct CapabilitiesQueryRequest(pub ());

impl XapRequest for CapabilitiesQueryRequest {
    type Response = CapabilitiesQueryResponseArg;

    open spec fn spec_id() -> Seq<u8> {
        seq![0x01u8, 0x01u8]
    }

    open spec fn spec_xap_version() -> u32 {
        0x00000100
    }

    open spec fn spec_payload(&self) -> Seq<u8> {
        Seq::empty()
    }

    fn id() -> (r: &'static [u8]) {
        let r: &'static [u8] = &[0x01, 0x01];
        assert(r@ =~= seq![0x01u8, 0x01u8]);
        r
    }

    fn xap_version() -> (r: u32) {
        0x00000100
    }

    fn payload(&self) -> (r: Vec<u8>) {
        let r: Vec<u8> = Vec::new();
        assert(r@ =~= Seq::<u8>::empty());
        r
    }
}

#[derive(Debug, Default, Clone, Copy, PartialEq, Eq, Structural)]
pub struct CapabilitiesQueryResponseArg(pub u32);

impl XapResponse for CapabilitiesQueryResponseArg {
    type Model = u32;

    open spec fn model(&self) -> u32 {
        self.0
    }

    open spec fn spec_decode(payload: Seq<u8>) -> Result<u32, XapError> {
        crate::response::spec_decode_u32(payload)
    }

    fn decode(payload: &[u8]) -> (r: Result<CapabilitiesQueryResponseArg, XapError>) {
        match crate::response::decode_u32(payload) {
            Ok(v) => Ok(CapabilitiesQueryResponseArg(v)),
            Err(e) => Err(e),
        }
    }
}

/// Board identifiers
///
/// Retrieves the set of identifying information for the board.
#[derive(Debug, Default, Clone, Copy)]
pub struct BoardIdentifiersRequest(pub ());

impl XapRequest for BoardIdentifiersRequest {
    type Response = BoardIdentifiersResponseArg;

    open spec fn spec_id() -> Seq<u8> {
        seq![0x01u8, 0x02u8]
    }

    open spec fn spec_xap_version() -> u32 {
        0x00000100
    }

    open spec fn spec_payload(&self) -> Seq<u8> {
        Seq::empty()
    }

    fn id() -> (r: &'static [u8]) {
        let r: &'static [u8] = &[0x01, 0x02];
        assert(r@ =~= seq![0x01u8, 0x02u8]);
        r
    }

    fn xap_version() -> (r: u32) {
        0x00000100
    }

    fn payload(&self) -> (r: Vec<u8>) {
        let r: Vec<u8> = Vec::new();
        assert(r@ =~= Seq::<u8>::empty());
        r
    }
}

#[derive(Debug, Default, Clone, Copy, PartialEq, Eq, Structural)]
pub struct BoardIdentifiersResponseArg {
    pub vendor_id: u16,
    pub product_id: u16,
    pub product_version: u16,
    pub qmk_unique_identifier: u32,
}

impl XapResponse for BoardIdentifiersResponseArg {
    type Model = BoardIdentifiersResponseArg;

    open spec fn model(&self) -> BoardIdentifiersResponseArg {
        *self
    }

    open spec fn spec_decode(payload: Seq<u8>) -> Result<BoardIdentifiersResponseArg, XapError> {
        if payload.len() < 10 {
            Err(XapError::UnexpectedEndOfInput)
        } else {
            Ok(BoardIdentifiersResponseArg { vendor_id: crate::wire::spec_u16_le(payload, 0), product_id: crate::wire::spec_u16_le(payload, 2), product_version: crate::wire::spec_u16_le(payload, 4), qmk_unique_identifier: crate::wire::spec_u32_le(payload, 6) })
        }
    }

    fn decode(payload: &[u8]) -> (r: Result<BoardIdentifiersResponseArg, XapError>) {
        if payload.len() < 10 {
            Err(XapError::UnexpectedEndOfInput)
        } else {
            Ok(BoardIdentifiersResponseArg { vendor_id: crate::wire::read_u16_le(payload, 0), product_id: crate::wire::read_u16_le(payload, 2), product_version: crate::wire::read_u16_le(payload, 4), qmk_unique_identifier: crate::wire::read_u32_le(payload, 6) })
        }
    }
}

/// Board Manufacturer
///
/// Retrieves the name of the manufacturer
#[derive(Debug, Default, Clone, Copy)]
pub struct BoardManufacturerRequest(pub ());

impl XapRequest for BoardManufacturerRequest {
    type Response = BoardManufacturerResponseArg;

    open spec fn spec_id() -> Seq<u8> {
        seq![0x01u8, 0x03u8]
    }

    open spec fn spec_xap_version() -> u32 {
        0x00000100
    }

    open spec fn spec_payload(&self) -> Seq<u8> {
        Seq::empty()
    }

    fn id() -> (r: &'static [u8]) {
        let r: &'static [u8] = &[0x01, 0x03];
        assert(r@ =~= seq![0x01u8, 0x03u8]);
        r
    }

    fn xap_version() -> (r: u32) {
        0x00000100
    }

    fn payload(&self) -> (r: Vec<u8>) {
        let r: Vec<u8> = Vec::new();
        assert(r@ =~= Seq::<u8>::empty());
        r
    }
}

#[derive(Debug, Default, Clone)]
pub struct BoardManufacturerResponseArg(pub UTF8String);

impl XapResponse for BoardManufacturerResponseArg {
    type Model = Seq<char>;

    open spec fn model(&self) -> Seq<char> {
        self.0.0@
    }

    open spec fn spec_decode(payload: Seq<u8>) -> Result<Seq<char>, XapError> {
        UTF8String::spec_decode(payload)
    }

    fn decode(payload: &[u8]) -> (r: Result<BoardManufacturerResponseArg, XapError>) {
        match UTF8String::decode(payload) {
            Ok(s) => Ok(BoardManufacturerResponseArg(s)),
            Err(e) => Err(e),
        }
    }
}

/// Product Name
///
/// Retrieves the product name
#[derive(Debug, Default, Clone, Copy)]
pub struct ProductNameRequest(pub ());

impl XapRequest for ProductNameRequest {
    type Response = ProductNameResponseArg;

    open spec fn spec_id() -> Seq<u8> {
        seq![0x01u8, 0x04u8]
    }

    open spec fn spec_xap_version() -> u32 {
        0x00000100
    }

    open spec fn spec_payload(&self) -> Seq<u8> {
        Seq::empty()
    }

    fn id() -> (r: &'static [u8]) {
        let r: &'static [u8] = &[0x01, 0x04];
        assert(r@ =~= seq![0x01u8, 0x04u8]);
        r
    }

    fn xap_version() -> (r: u32) {
        0x00000100
    }

    fn payload(&self) -> (r: Vec<u8>) {
        let r: Vec<u8> = Vec::new();
        assert(r@ =~= Seq::<u8>::empty());
        r
    }
}

#[derive(Debug, Default, Clone)]
pub struct ProductNameResponseArg(pub UTF8String);

impl XapResponse for ProductNameResponseArg {
    type Model = Seq<char>;

    open spec fn model(&self) -> Seq<char> {
        self.0.0@
    }

    open spec fn spec_decode(payload: Seq<u8>) -> Result<Seq<char>, XapError> {
        UTF8String::spec_decode(payload)
    }

    fn decode(payload: &[u8]) -> (r: Result<ProductNameResponseArg, XapError>) {
        match UTF8String::decode(payload) {
            Ok(s) => Ok(ProductNameResponseArg(s)),
            Err(e) => Err(e),
        }
    }
}

/// Config Blob Length
///
/// Retrieves the length of the configuration data bundled within the firmware
#[derive(Debug, Default, Clone, Copy)]
pub struct ConfigBlobLengthRequest(pub ());

impl XapRequest for ConfigBlobLengthRequest {
    type Response = ConfigBlobLengthResponseArg;

    open spec fn spec_id() -> Seq<u8> {
        seq![0x01u8, 0x05u8]
    }

    open spec fn spec_xap_version() -> u32 {
        0x00000100
    }

    open spec fn spec_payload(&self) -> Seq<u8> {
        Seq::empty()
    }

    fn id() -> (r: &'static [u8]) {
        let r: &'static [u8] = &[0x01, 0x05];
        assert(r@ =~= seq![0x01u8, 0x05u8]);
        r
    }

    fn xap_version() -> (r: u32) {
        0x00000100
    }

    fn payload(&self) -> (r: Vec<u8>) {
        let r: Vec<u8> = Vec::new();
        assert(r@ =~= Seq::<u8>::empty());
        r
    }
}

#[derive(Debug, Default, Clone, Copy, PartialEq, Eq, Structural)]
pub struct ConfigBlobLengthResponseArg(pub u16);

impl XapResponse for ConfigBlobLengthResponseArg {
    type Model = u16;

    open spec fn model(&self) -> u16 {
        self.0
    }

    open spec fn spec_decode(payload: Seq<u8>) -> Result<u16, XapError> {
        crate::response::spec_decode_u16(payload)
    }

    fn decode(payload: &[u8]) -> (r: Result<ConfigBlobLengthResponseArg, XapError>) {
        match crate::response::decode_u16(payload) {
            Ok(v) => Ok(ConfigBlobLengthResponseArg(v)),
            Err(e) => Err(e),
        }
    }
}

/// Config Blob Chunk
///
/// Retrieves a chunk of the configuration data bundled within the firmware
#[derive(Debug, Default, Clone, Copy)]
pub struct ConfigBlobChunkRequest(pub u16);

impl XapRequest for ConfigBlobChunkRequest {
    type Response = ConfigBlobChunkResponseArg;

    open spec fn spec_id() -> Seq<u8> {
        seq![0x01u8, 0x06u8]
    }

    open spec fn spec_xap_version() -> u32 {
        0x00000100
    }

    open spec fn spec_payload(&self) -> Seq<u8> {
        crate::wire::spec_u16_le_bytes(self.0)
    }

    fn id() -> (r: &'static [u8]) {
        let r: &'static [u8] = &[0x01, 0x06];
        assert(r@ =~= seq![0x01u8, 0x06u8]);
        r
    }

    fn xap_version() -> (r: u32) {
        0x00000100
    }

    fn payload(&self) -> (r: Vec<u8>) {
        let mut r: Vec<u8> = Vec::new();
        crate::wire::push_u16_le(&mut r, self.0);
        assert(r@ =~= crate::wire::spec_u16_le_bytes(self.0));
        r
    }
}

#[derive(Debug, Clone, Copy)]
pub struct ConfigBlobChunkResponseArg(pub [u8; 32]);

impl Default for ConfigBlobChunkResponseArg {
    fn default() -> (r: ConfigBlobChunkResponseArg)
        ensures
            r.0@ == Seq::new(32, |i: int| 0u8),
    {
        let r = ConfigBlobChunkResponseArg([0u8; 32]);
        assert(r.0@ =~= Seq::new(32, |i: int| 0u8));
        r
    }
}

impl XapResponse for ConfigBlobChunkResponseArg {
    type Model = Seq<u8>;

    open spec fn model(&self) -> Seq<u8> {
        self.0@
    }

    open spec fn spec_decode(payload: Seq<u8>) -> Result<Seq<u8>, XapError> {
        crate::spec::qmk::QmkConfigBlobChunkResponse::spec_decode(payload)
    }

    fn decode(payload: &[u8]) -> (r: Result<ConfigBlobChunkResponseArg, XapError>) {
        match crate::spec::qmk::QmkConfigBlobChunkResponse::decode(payload) {
            Ok(chunk) => Ok(ConfigBlobChunkResponseArg(chunk.0)),
            Err(e) => Err(e),
        }
    }
}

/// Jump to bootloader
///
/// Jump to bootloader
///
/// May not be present - if QMK capabilities query returns "true", then jump to bootloader is supported
///
/// * 0 means secure routes are disabled, and should be considered as a failure
/// * 1 means successful, board will jump to bootloader
#[derive(Debug, Default, Clone, Copy)]
pub struct JumpToBootloaderRequest(pub ());

impl XapRequest for JumpToBootloaderRequest {
    type Response = JumpToBootloaderResponseArg;

    open spec fn spec_id() -> Seq<u8> {
        seq![0x01u8, 0x07u8]
    }

    open spec fn spec_xap_version() -> u32 {
        0x00000100
    }

    open spec fn spec_payload(&self) -> Seq<u8> {
        Seq::empty()
    }

    fn id() -> (r: &'static [u8]) {
        let r: &'static [u8] = &[0x01, 0x07];
        assert(r@ =~= seq![0x01u8, 0x07u8]);
        r
    }

    fn xap_version() -> (r: u32) {
        0x00000100
    }

    fn payload(&self) -> (r: Vec<u8>) {
        let r: Vec<u8> = Vec::new();
        assert(r@ =~= Seq::<u8>::empty());
        r
    }
}

#[derive(Debug, Default, Clone, Copy, PartialEq, Eq, Structural)]
pub struct JumpToBootloaderResponseArg(pub u8);

impl XapResponse for JumpToBootloaderResponseArg {
    type Model = u8;

    open spec fn model(&self) -> u8 {
        self.0
    }

    open spec fn spec_decode(payload: Seq<u8>) -> Result<u8, XapError> {
        crate::response::spec_decode_u8(payload)
    }

    fn decode(payload: &[u8]) -> (r: Result<JumpToBootloaderResponseArg, XapError>) {
        match crate::response::decode_u8(payload) {
            Ok(v) => Ok(JumpToBootloaderResponseArg(v)),
            Err(e) => Err(e),
        }
    }
}

/// Hardware Identifier
///
/// Retrieves a unique identifier for the board.
#[derive(Debug, Default, Clone, Copy)]
pub struct HardwareIdentifierRequest(pub ());

impl XapRequest for HardwareIdentifierRequest {
    type Response = HardwareIdentifierResponseArg;

    open spec fn spec_id() -> Seq<u8> {
        seq![0x01u8, 0x08u8]
    }

    open spec fn spec_xap_version() -> u32 {
        0x00000100
    }

    open spec fn spec_payload(&self) -> Seq<u8> {
        Seq::empty()
    }

    fn id() -> (r: &'static [u8]) {
        let r: &'static [u8] = &[0x01, 0x08];
        assert(r@ =~= seq![0x01u8, 0x08u8]);
        r
    }

    fn xap_version() -> (r: u32) {
        0x00000100
    }

    fn payload(&self) -> (r: Vec<u8>) {
        let r: Vec<u8> = Vec::new();
        assert(r@ =~= Seq::<u8>::empty());
        r
    }
}

#[derive(Debug, Default, Clone, Copy)]
pub struct HardwareIdentifierResponseArg(pub [u32; 4]);

impl XapResponse for HardwareIdentifierResponseArg {
    type Model = Seq<u32>;

    open spec fn model(&self) -> Seq<u32> {
        self.0@
    }

    open spec fn spec_decode(payload: Seq<u8>) -> Result<Seq<u32>, XapError> {
        crate::spec::qmk::QmkHardwareIdentifierResponse::spec_decode(payload)
    }

    fn decode(payload: &[u8]) -> (r: Result<HardwareIdentifierResponseArg, XapError>) {
        match crate::spec::qmk::QmkHardwareIdentifierResponse::decode(payload) {
            Ok(words) => Ok(HardwareIdentifierResponseArg(words.0)),
            Err(e) => Err(e),
        }
    }
}

/// Reinitialize EEPROM
///
/// Reinitializes the keyboard's EEPROM (persistent memory)
///
/// May not be present - if QMK capabilities query returns "true", then reinitialize is supported
///
/// * 0 means secure routes are disabled, and should be considered as a failure
/// * 1 means successful, board will reinitialize and then reboot
#[derive(Debug, Default, Clone, Copy)]
pub struct ReinitializeEepromRequest(pub ());

impl XapRequest for ReinitializeEepromRequest {
    type Response = ReinitializeEepromResponseArg;

    open spec fn spec_id() -> Seq<u8> {
        seq![0x01u8, 0x09u8]
    }

    open spec fn spec_xap_version() -> u32 {
        0x00000100
    }

    open spec fn spec_payload(&self) -> Seq<u8> {
        Seq::empty()
    }

    fn id() -> (r: &'static [u8]) {
        let r: &'static [u8] = &[0x01, 0x09];
        assert(r@ =~= seq![0x01u8, 0x09u8]);
        r
    }

    fn xap_version() -> (r: u32) {
        0x00000100
    }

    fn payload(&self) -> (r: Vec<u8>) {
        let r: Vec<u8> = Vec::new();
        assert(r@ =~= Seq::<u8>::empty());
        r
    }
}

#[derive(Debug, Default, Clone, Copy, PartialEq, Eq, Structural)]
pub struct ReinitializeEepromResponseArg(pub u8);

impl XapResponse for ReinitializeEepromResponseArg {
    type Model = u8;

    open spec fn model(&self) -> u8 {
        self.0
    }

    open spec fn spec_decode(payload: Seq<u8>) -> Result<u8, XapError> {
        crate::response::spec_decode_u8(payload)
    }

    fn decode(payload: &[u8]) -> (r: Result<ReinitializeEepromResponseArg, XapError>) {
        match crate::response::decode_u8(payload) {
            Ok(v) => Ok(ReinitializeEepromResponseArg(v)),
            Err(e) => Err(e),
        }
    }
}

} // verus!

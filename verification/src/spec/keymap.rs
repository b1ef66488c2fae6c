//! Routes of the keymap subsystem: reading keycodes.
use vstd::prelude::*;

use crate::error::XapError;
use crate::request::{XapRequest, XapResponse};

verus! {

/// capabilities
///
/// Keymap subsystem capabilities query. Each bit should be considered as a "usable" route within this subsystem.
#[derive(Debug, Default, Clone, Copy)]
pub struct KeymapCapabilitiesRequest(pub ());

impl XapRequest for KeymapCapabilitiesRequest {
    type Response = KeymapCapabilitiesFlags;

    open spec fn spec_id() -> Seq<u8> {
        seq![0x04u8, 0x01u8]
    }

    open spec fn spec_xap_version() -> u32 {
        0x00000200
    }

    open spec fn spec_payload(&self) -> Seq<u8> {
        Seq::empty()
    }

    fn id() -> (r: &'static [u8]) {
        let r: &'static [u8] = &[0x04, 0x01];
        assert(r@ =~= seq![0x04u8, 0x01u8]);
        r
    }

    fn xap_version() -> (r: u32) {
        0x00000200
    }

    fn payload(&self) -> (r: Vec<u8>) {
        let r: Vec<u8> = Vec::new();
        assert(r@ =~= Seq::<u8>::empty());
        r
    }
}

/// Routes of the subsystem that the device supports, one bit per route id.
#[derive(Debug, Clone, Copy, PartialEq, Eq, PartialOrd, Ord, Hash, Structural)]
pub struct KeymapCapabilitiesFlags(u32);

impl KeymapCapabilitiesFlags {
    #[allow(non_upper_case_globals)]
    pub const Capabilities: u32 = 1 << 1;

    #[allow(non_upper_case_globals)]
    pub const GetLayerCount: u32 = 1 << 2;

    #[allow(non_upper_case_globals)]
    pub const GetKeycode: u32 = 1 << 3;

    #[allow(non_upper_case_globals)]
    pub const GetEncoderKeycode: u32 = 1 << 4;

    pub closed spec fn spec_bits(&self) -> u32 {
        self.0
    }

    pub fn from_bits_retain(bits: u32) -> (r: KeymapCapabilitiesFlags)
        ensures
            r.spec_bits() == bits,
    {
        KeymapCapabilitiesFlags(bits)
    }

    pub fn bits(&self) -> (r: u32)
        ensures
            r == self.spec_bits(),
    {
        self.0
    }

    /// Whether every bit of `flag` is set.
    pub fn contains(&self, flag: u32) -> (r: bool)
        ensures
            r == (self.spec_bits() & flag == flag),
    {
        self.0 & flag == flag
    }
}

impl XapResponse for KeymapCapabilitiesFlags {
    type Model = u32;

    open spec fn model(&self) -> u32 {
        self.spec_bits()
    }

    open spec fn spec_decode(payload: Seq<u8>) -> Result<u32, XapError> {
        crate::response::spec_decode_u32(payload)
    }

    fn decode(payload: &[u8]) -> (r: Result<KeymapCapabilitiesFlags, XapError>) {
        match crate::response::decode_u32(payload) {
            Ok(v) => Ok(KeymapCapabilitiesFlags(v)),
            Err(e) => Err(e),
        }
    }
}

/// Get Layer Count
///
/// Query maximum number of layers that can be addressed within the keymap.
#[derive(Debug, Default, Clone, Copy)]
pub struct KeymapGetLayerCountRequest(pub ());

impl XapRequest for KeymapGetLayerCountRequest {
    type Response = KeymapGetLayerCountResponse;

    open spec fn spec_id() -> Seq<u8> {
        seq![0x04u8, 0x02u8]
    }

    open spec fn spec_xap_version() -> u32 {
        0x00000200
    }

    open spec fn spec_payload(&self) -> Seq<u8> {
        Seq::empty()
    }

    fn id() -> (r: &'static [u8]) {
        let r: &'static [u8] = &[0x04, 0x02];
        assert(r@ =~= seq![0x04u8, 0x02u8]);
        r
    }

    fn xap_version() -> (r: u32) {
        0x00000200
    }

    fn payload(&self) -> (r: Vec<u8>) {
        let r: Vec<u8> = Vec::new();
        assert(r@ =~= Seq::<u8>::empty());
        r
    }
}

#[derive(Debug, Default, Clone, Copy, PartialEq, Eq, Structural)]
pub struct KeymapGetLayerCountResponse(pub u8);

impl XapResponse for KeymapGetLayerCountResponse {
    type Model = u8;

    open spec fn model(&self) -> u8 {
        self.0
    }

    open spec fn spec_decode(payload: Seq<u8>) -> Result<u8, XapError> {
        crate::response::spec_decode_u8(payload)
    }

    fn decode(payload: &[u8]) -> (r: Result<KeymapGetLayerCountResponse, XapError>) {
        match crate::response::decode_u8(payload) {
            Ok(v) => Ok(KeymapGetLayerCountResponse(v)),
            Err(e) => Err(e),
        }
    }
}

/// Get Keycode
///
/// Query the Keycode at the requested location.
#[derive(Debug, Default, Clone, Copy)]
pub struct KeymapGetKeycodeRequest(pub KeymapGetKeycodeArg);

impl XapRequest for KeymapGetKeycodeRequest {
    type Response = KeymapGetKeycodeResponse;

    open spec fn spec_id() -> Seq<u8> {
        seq![0x04u8, 0x03u8]
    }

    open spec fn spec_xap_version() -> u32 {
        0x00000200
    }

    open spec fn spec_payload(&self) -> Seq<u8> {
        self.0.spec_encode()
    }

    fn id() -> (r: &'static [u8]) {
        let r: &'static [u8] = &[0x04, 0x03];
        assert(r@ =~= seq![0x04u8, 0x03u8]);
        r
    }

    fn xap_version() -> (r: u32) {
        0x00000200
    }

    fn payload(&self) -> (r: Vec<u8>) {
        self.0.encode()
    }
}

#[derive(Debug, Default, Clone, Copy, PartialEq, Eq, Structural)]
pub struct KeymapGetKeycodeArg {
    pub layer: u8,
    pub row: u8,
    pub column: u8,
}

impl KeymapGetKeycodeArg {
    /// The fields in declaration order, integers little-endian.
    pub open spec fn spec_encode(&self) -> Seq<u8> {
        seq![self.layer] + seq![self.row] + seq![self.column]
    }

    pub fn encode(&self) -> (r: Vec<u8>)
        ensures
            r@ == self.spec_encode(),
    {
        let mut out: Vec<u8> = Vec::new();
        out.push(self.layer);
        out.push(self.row);
        out.push(self.column);
        assert(out@ =~= self.spec_encode());
        out
    }
}

#[derive(Debug, Default, Clone, Copy, PartialEq, Eq, Structural)]
pub struct KeymapGetKeycodeResponse(pub u16);

impl XapResponse for KeymapGetKeycodeResponse {
    type Model = u16;

    open spec fn model(&self) -> u16 {
        self.0
    }

    open spec fn spec_decode(payload: Seq<u8>) -> Result<u16, XapError> {
        crate::response::spec_decode_u16(payload)
    }

    fn decode(payload: &[u8]) -> (r: Result<KeymapGetKeycodeResponse, XapError>) {
        match crate::response::decode_u16(payload) {
            Ok(v) => Ok(KeymapGetKeycodeResponse(v)),
            Err(e) => Err(e),
        }
    }
}

/// Get Encoder Keycode
///
/// Query the Keycode at the requested location.
#[derive(Debug, Default, Clone, Copy)]
pub struct KeymapGetEncoderKeycodeRequest(pub KeymapGetEncoderKeycodeArg);

impl XapRequest for KeymapGetEncoderKeycodeRequest {
    type Response = KeymapGetEncoderKeycodeResponse;

    open spec fn spec_id() -> Seq<u8> {
        seq![0x04u8, 0x04u8]
    }

    open spec fn spec_xap_version() -> u32 {
        0x00000200
    }

    open spec fn spec_payload(&self) -> Seq<u8> {
        self.0.spec_encode()
    }

    fn id() -> (r: &'static [u8]) {
        let r: &'static [u8] = &[0x04, 0x04];
        assert(r@ =~= seq![0x04u8, 0x04u8]);
        r
    }

    fn xap_version() -> (r: u32) {
        0x00000200
    }

    fn payload(&self) -> (r: Vec<u8>) {
        self.0.encode()
    }
}

#[derive(Debug, Default, Clone, Copy, PartialEq, Eq, Structural)]
pub struct KeymapGetEncoderKeycodeArg {
    pub layer: u8,
    pub encoder: u8,
    pub clockwise: u8,
}

impl KeymapGetEncoderKeycodeArg {
    /// The fields in declaration order, integers little-endian.
    pub open spec fn spec_encode(&self) -> Seq<u8> {
        seq![self.layer] + seq![self.encoder] + seq![self.clockwise]
    }

    pub fn encode(&self) -> (r: Vec<u8>)
        ensures
            r@ == self.spec_encode(),
    {
        let mut out: Vec<u8> = Vec::new();
        out.push(self.layer);
        out.push(self.encoder);
        out.push(self.clockwise);
        assert(out@ =~= self.spec_encode());
        out
    }
}

#[derive(Debug, Default, Clone, Copy, PartialEq, Eq, Structural)]
pub struct KeymapGetEncoderKeycodeResponse(pub u16);

impl XapResponse for KeymapGetEncoderKeycodeResponse {
    type Model = u16;

    open spec fn model(&self) -> u16 {
        self.0
    }

    open spec fn spec_decode(payload: Seq<u8>) -> Result<u16, XapError> {
        crate::response::spec_decode_u16(payload)
    }

    fn decode(payload: &[u8]) -> (r: Result<KeymapGetEncoderKeycodeResponse, XapError>) {
        match crate::response::decode_u16(payload) {
            Ok(v) => Ok(KeymapGetEncoderKeycodeResponse(v)),
            Err(e) => Err(e),
        }
    }
}

} // verus!

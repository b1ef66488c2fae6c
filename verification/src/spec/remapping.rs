//! Routes of the remapping subsystem: changing keycodes.
use vstd::prelude::*;

use crate::error::XapError;
use crate::request::{XapRequest, XapResponse};

verus! {

/// capabilities
///
/// Remapping subsystem capabilities query. Each bit should be considered as a "usable" route within this subsystem.
#[derive(Debug, Default, Clone, Copy)]
pub struct RemappingCapabilitiesRequest(pub ());

impl XapRequest for RemappingCapabilitiesRequest {
    type Response = RemappingCapabilitiesFlags;

    open spec fn spec_id() -> Seq<u8> {
        seq![0x05u8, 0x01u8]
    }

    open spec fn spec_xap_version() -> u32 {
        0x00000200
    }

    open spec fn spec_payload(&self) -> Seq<u8> {
        Seq::empty()
    }

    fn id() -> (r: &'static [u8]) {
        let r: &'static [u8] = &[0x05, 0x01];
        assert(r@ =~= seq![0x05u8, 0x01u8]);
        r
    }

    fn xap_version() -> (r: u32) {
        0x00000200
    }

    fn payload(&self) -> (r: Vec<u8>) {
        let r: Vec<u8> = Vec::new();
        assert(r@ =~= Seq::<u8>::empty());
        r
    }
}

/// Routes of the subsystem that the device supports, one bit per route id.
#[derive(Debug, Clone, Copy, PartialEq, Eq, PartialOrd, Ord, Hash, Structural)]
pub struct RemappingCapabilitiesFlags(u32);

impl RemappingCapabilitiesFlags {
    #[allow(non_upper_case_globals)]
    pub const Capabilities: u32 = 1 << 1;

    #[allow(non_upper_case_globals)]
    pub const GetLayerCount: u32 = 1 << 2;

    #[allow(non_upper_case_globals)]
    pub const SetKeycode: u32 = 1 << 3;

    #[allow(non_upper_case_globals)]
    pub const SetEncoderKeycode: u32 = 1 << 4;

    pub closed spec fn spec_bits(&self) -> u32 {
        self.0
    }

    pub fn from_bits_retain(bits: u32) -> (r: RemappingCapabilitiesFlags)
        ensures
            r.spec_bits() == bits,
    {
        RemappingCapabilitiesFlags(bits)
    }

    pub fn bits(&self) -> (r: u32)
        ensures
            r == self.spec_bits(),
    {
        self.0
    }

    /// Whether every bit of `flag` is set.
    pub fn contains(&self, flag: u32) -> (r: bool)
        ensures
            r == (self.spec_bits() & flag == flag),
    {
        self.0 & flag == flag
    }
}

impl XapResponse for RemappingCapabilitiesFlags {
    type Model = u32;

    open spec fn model(&self) -> u32 {
        self.spec_bits()
    }

    open spec fn spec_decode(payload: Seq<u8>) -> Result<u32, XapError> {
        crate::response::spec_decode_u32(payload)
    }

    fn decode(payload: &[u8]) -> (r: Result<RemappingCapabilitiesFlags, XapError>) {
        match crate::response::decode_u32(payload) {
            Ok(v) => Ok(RemappingCapabilitiesFlags(v)),
            Err(e) => Err(e),
        }
    }
}

/// Get Layer Count
///
/// Query maximum number of layers that can be addressed within the keymap.
#[derive(Debug, Default, Clone, Copy)]
pub struct RemappingGetLayerCountRequest(pub ());

impl XapRequest for RemappingGetLayerCountRequest {
    type Response = RemappingGetLayerCountResponse;

    open spec fn spec_id() -> Seq<u8> {
        seq![0x05u8, 0x02u8]
    }

    open spec fn spec_xap_version() -> u32 {
        0x00000200
    }

    open spec fn spec_payload(&self) -> Seq<u8> {
        Seq::empty()
    }

    fn id() -> (r: &'static [u8]) {
        let r: &'static [u8] = &[0x05, 0x02];
        assert(r@ =~= seq![0x05u8, 0x02u8]);
        r
    }

    fn xap_version() -> (r: u32) {
        0x00000200
    }

    fn payload(&self) -> (r: Vec<u8>) {
        let r: Vec<u8> = Vec::new();
        assert(r@ =~= Seq::<u8>::empty());
        r
    }
}

#[derive(Debug, Default, Clone, Copy, PartialEq, Eq, Structural)]
pub struct RemappingGetLayerCountResponse(pub u8);

impl XapResponse for RemappingGetLayerCountResponse {
    type Model = u8;

    open spec fn model(&self) -> u8 {
        self.0
    }

    open spec fn spec_decode(payload: Seq<u8>) -> Result<u8, XapError> {
        crate::response::spec_decode_u8(payload)
    }

    fn decode(payload: &[u8]) -> (r: Result<RemappingGetLayerCountResponse, XapError>) {
        match crate::response::decode_u8(payload) {
            Ok(v) => Ok(RemappingGetLayerCountResponse(v)),
            Err(e) => Err(e),
        }
    }
}

/// Set Keycode
///
/// Modify the Keycode at the requested location.
#[derive(Debug, Default, Clone, Copy)]
pub struct RemappingSetKeycodeRequest(pub RemappingSetKeycodeArg);

impl XapRequest for RemappingSetKeycodeRequest {
    type Response = ();

    open spec fn spec_id() -> Seq<u8> {
        seq![0x05u8, 0x03u8]
    }

    open spec fn spec_xap_version() -> u32 {
        0x00000200
    }

    open spec fn spec_payload(&self) -> Seq<u8> {
        self.0.spec_encode()
    }

    fn id() -> (r: &'static [u8]) {
        let r: &'static [u8] = &[0x05, 0x03];
        assert(r@ =~= seq![0x05u8, 0x03u8]);
        r
    }

    fn xap_version() -> (r: u32) {
        0x00000200
    }

    fn payload(&self) -> (r: Vec<u8>) {
        self.0.encode()
    }
}

#[derive(Debug, Default, Clone, Copy, PartialEq, Eq, Structural)]
pub struct RemappingSetKeycodeArg {
    pub layer: u8,
    pub row: u8,
    pub column: u8,
    pub keycode: u16,
}

impl RemappingSetKeycodeArg {
    /// The fields in declaration order, integers little-endian.
    pub open spec fn spec_encode(&self) -> Seq<u8> {
        seq![self.layer] + seq![self.row] + seq![self.column] + crate::wire::spec_u16_le_bytes(self.keycode)
    }

    pub fn encode(&self) -> (r: Vec<u8>)
        ensures
            r@ == self.spec_encode(),
    {
        let mut out: Vec<u8> = Vec::new();
        out.push(self.layer);
        out.push(self.row);
        out.push(self.column);
        crate::wire::push_u16_le(&mut out, self.keycode);
        assert(out@ =~= self.spec_encode());
        out
    }
}

/// Set Encoder Keycode
///
/// Modify the Keycode at the requested location.
#[derive(Debug, Default, Clone, Copy)]
pub struct RemappingSetEncoderKeycodeRequest(pub RemappingSetEncoderKeycodeArg);

impl XapRequest for RemappingSetEncoderKeycodeRequest {
    type Response = ();

    open spec fn spec_id() -> Seq<u8> {
        seq![0x05u8, 0x04u8]
    }

    open spec fn spec_xap_version() -> u32 {
        0x00000200
    }

    open spec fn spec_payload(&self) -> Seq<u8> {
        self.0.spec_encode()
    }

    fn id() -> (r: &'static [u8]) {
        let r: &'static [u8] = &[0x05, 0x04];
        assert(r@ =~= seq![0x05u8, 0x04u8]);
        r
    }

    fn xap_version() -> (r: u32) {
        0x00000200
    }

    fn payload(&self) -> (r: Vec<u8>) {
        self.0.encode()
    }
}

#[derive(Debug, Default, Clone, Copy, PartialEq, Eq, Structural)]
pub struct RemappingSetEncoderKeycodeArg {
    pub layer: u8,
    pub encoder: u8,
    pub clockwise: u8,
    pub keycode: u16,
}

impl RemappingSetEncoderKeycodeArg {
    /// The fields in declaration order, integers little-endian.
    pub open spec fn spec_encode(&self) -> Seq<u8> {
        seq![self.layer] + seq![self.encoder] + seq![self.clockwise] + crate::wire::spec_u16_le_bytes(self.keycode)
    }

    pub fn encode(&self) -> (r: Vec<u8>)
        ensures
            r@ == self.spec_encode(),
    {
        let mut out: Vec<u8> = Vec::new();
        out.push(self.layer);
        out.push(self.encoder);
        out.push(self.clockwise);
        crate::wire::push_u16_le(&mut out, self.keycode);
        assert(out@ =~= self.spec_encode());
        out
    }
}

} // verus!

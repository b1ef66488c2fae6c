//! Routes of the keymap subsystem, with responses named after the route.
use vstd::prelude::*;

use crate::error::XapError;
use crate::request::{XapRequest, XapResponse};

verus! {

/// Capabilities Query
///
/// Keymap subsystem capabilities query. Each bit should be considered as a "usable" route within this subsystem.
#[derive(Debug, Default, Clone, Copy)]
pub struct CapabilitiesQueryRequest(pub ());

impl XapRequest for CapabilitiesQueryRequest {
    type Response = CapabilitiesQueryResponseArg;

    open spec fn spec_id() -> Seq<u8> {
        seq![0x04u8, 0x01u8]
    }

    open spec fn spec_xap_version() -> u32 {
        0x00000200
    }

    open spec fn spec_payload(&self) -> Seq<u8> {
        Seq::empty()
    }

    fn id() -> (r: &'static [u8]) {
        let r: &'static [u8] = &[0x04, 0x01];
        assert(r@ =~= seq![0x04u8, 0x01u8]);
        r
    }

    fn xap_version() -> (r: u32) {
        0x00000200
    }

    fn payload(&self) -> (r: Vec<u8>) {
        let r: Vec<u8> = Vec::new();
        assert(r@ =~= Seq::<u8>::empty());
        r
    }
}

#[derive(Debug, Default, Clone, Copy, PartialEq, Eq, Structural)]
pub struct CapabilitiesQueryResponseArg(pub u32);

impl XapResponse for CapabilitiesQueryResponseArg {
    type Model = u32;

    open spec fn model(&self) -> u32 {
        self.0
    }

    open spec fn spec_decode(payload: Seq<u8>) -> Result<u32, XapError> {
        crate::response::spec_decode_u32(payload)
    }

    fn decode(payload: &[u8]) -> (r: Result<CapabilitiesQueryResponseArg, XapError>) {
        match crate::response::decode_u32(payload) {
            Ok(v) => Ok(CapabilitiesQueryResponseArg(v)),
            Err(e) => Err(e),
        }
    }
}

/// Get Layer Count
///
/// Query maximum number of layers that can be addressed within the keymap.
#[derive(Debug, Default, Clone, Copy)]
pub struct GetLayerCountRequest(pub ());

impl XapRequest for GetLayerCountRequest {
    type Response = GetLayerCountResponseArg;

    open spec fn spec_id() -> Seq<u8> {
        seq![0x04u8, 0x02u8]
    }

    open spec fn spec_xap_version() -> u32 {
        0x00000200
    }

    open spec fn spec_payload(&self) -> Seq<u8> {
        Seq::empty()
    }

    fn id() -> (r: &'static [u8]) {
        let r: &'static [u8] = &[0x04, 0x02];
        assert(r@ =~= seq![0x04u8, 0x02u8]);
        r
    }

    fn xap_version() -> (r: u32) {
        0x00000200
    }

    fn payload(&self) -> (r: Vec<u8>) {
        let r: Vec<u8> = Vec::new();
        assert(r@ =~= Seq::<u8>::empty());
        r
    }
}

#[derive(Debug, Default, Clone, Copy, PartialEq, Eq, Structural)]
pub struct GetLayerCountResponseArg(pub u8);

impl XapResponse for GetLayerCountResponseArg {
    type Model = u8;

    open spec fn model(&self) -> u8 {
        self.0
    }

    open spec fn spec_decode(payload: Seq<u8>) -> Result<u8, XapError> {
        crate::response::spec_decode_u8(payload)
    }

    fn decode(payload: &[u8]) -> (r: Result<GetLayerCountResponseArg, XapError>) {
        match crate::response::decode_u8(payload) {
            Ok(v) => Ok(GetLayerCountResponseArg(v)),
            Err(e) => Err(e),
        }
    }
}

#[derive(Debug, Default, Clone, Copy, PartialEq, Eq, Structural)]
pub struct GetKeycodeRequestArg {
    pub layer: u8,
    pub row: u8,
    pub column: u8,
}

impl GetKeycodeRequestArg {
    /// The fields in declaration order, integers little-endian.
    pub open spec fn spec_encode(&self) -> Seq<u8> {
        seq![self.layer] + seq![self.row] + seq![self.column]
    }

    pub fn encode(&self) -> (r: Vec<u8>)
        ensures
            r@ == self.spec_encode(),
    {
        let mut out: Vec<u8> = Vec::new();
        out.push(self.layer);
        out.push(self.row);
        out.push(self.column);
        assert(out@ =~= self.spec_encode());
        out
    }
}

#[derive(Debug, Default, Clone, Copy)]
pub struct GetKeycodeRequest(pub GetKeycodeRequestArg);

impl XapRequest for GetKeycodeRequest {
    type Response = GetKeycodeResponseArg;

    open spec fn spec_id() -> Seq<u8> {
        seq![0x04u8, 0x03u8]
    }

    open spec fn spec_xap_version() -> u32 {
        0x00000200
    }

    open spec fn spec_payload(&self) -> Seq<u8> {
        self.0.spec_encode()
    }

    fn id() -> (r: &'static [u8]) {
        let r: &'static [u8] = &[0x04, 0x03];
        assert(r@ =~= seq![0x04u8, 0x03u8]);
        r
    }

    fn xap_version() -> (r: u32) {
        0x00000200
    }

    fn payload(&self) -> (r: Vec<u8>) {
        self.0.encode()
    }
}

#[derive(Debug, Default, Clone, Copy, PartialEq, Eq, Structural)]
pub struct GetKeycodeResponseArg(pub u16);

impl XapResponse for GetKeycodeResponseArg {
    type Model = u16;

    open spec fn model(&self) -> u16 {
        self.0
    }

    open spec fn spec_decode(payload: Seq<u8>) -> Result<u16, XapError> {
        crate::response::spec_decode_u16(payload)
    }

    fn decode(payload: &[u8]) -> (r: Result<GetKeycodeResponseArg, XapError>) {
        match crate::response::decode_u16(payload) {
            Ok(v) => Ok(GetKeycodeResponseArg(v)),
            Err(e) => Err(e),
        }
    }
}

#[derive(Debug, Default, Clone, Copy, PartialEq, Eq, Structural)]
pub struct GetEncoderKeycodeRequestArg {
    pub layer: u8,
    pub encoder: u8,
    pub clockwise: u8,
}

impl GetEncoderKeycodeRequestArg {
    /// The fields in declaration order, integers little-endian.
    pub open spec fn spec_encode(&self) -> Seq<u8> {
        seq![self.layer] + seq![self.encoder] + seq![self.clockwise]
    }

    pub fn encode(&self) -> (r: Vec<u8>)
        ensures
            r@ == self.spec_encode(),
    {
        let mut out: Vec<u8> = Vec::new();
        out.push(self.layer);
        out.push(self.encoder);
        out.push(self.clockwise);
        assert(out@ =~= self.spec_encode());
        out
    }
}

#[derive(Debug, Default, Clone, Copy)]
pub struct GetEncoderKeycodeRequest(pub GetEncoderKeycodeRequestArg);

impl XapRequest for GetEncoderKeycodeRequest {
    type Response = GetEncoderKeycodeResponseArg;

    open spec fn spec_id() -> Seq<u8> {
        seq![0x04u8, 0x04u8]
    }

    open spec fn spec_xap_version() -> u32 {
        0x00000200
    }

    open spec fn spec_payload(&self) -> Seq<u8> {
        self.0.spec_encode()
    }

    fn id() -> (r: &'static [u8]) {
        let r: &'static [u8] = &[0x04, 0x04];
        assert(r@ =~= seq![0x04u8, 0x04u8]);
        r
    }

    fn xap_version() -> (r: u32) {
        0x00000200
    }

    fn payload(&self) -> (r: Vec<u8>) {
        self.0.encode()
    }
}

#[derive(Debug, Default, Clone, Copy, PartialEq, Eq, Structural)]
pub struct GetEncoderKeycodeResponseArg(pub u16);

impl XapResponse for GetEncoderKeycodeResponseArg {
    type Model = u16;

    open spec fn model(&self) -> u16 {
        self.0
    }

    open spec fn spec_decode(payload: Seq<u8>) -> Result<u16, XapError> {
        crate::response::spec_decode_u16(payload)
    }

    fn decode(payload: &[u8]) -> (r: Result<GetEncoderKeycodeResponseArg, XapError>) {
        match crate::response::decode_u16(payload) {
            Ok(v) => Ok(GetEncoderKeycodeResponseArg(v)),
            Err(e) => Err(e),
        }
    }
}

} // verus!

//! Routes of the RGB matrix part of the lighting subsystem.
use vstd::prelude::*;

use crate::error::XapError;
use crate::request::{XapRequest, XapResponse};

verus! {

/// Capabilities Query
///
/// rgb matrix subsystem capabilities query. Each bit should be considered as a "usable" route within this subsystem.
#[derive(Debug, Default, Clone, Copy)]
pub struct CapabilitiesQueryRequest(pub ());

impl XapRequest for CapabilitiesQueryRequest {
    type Response = CapabilitiesQueryResponseArg;

    open spec fn spec_id() -> Seq<u8> {
        seq![0x06u8, 0x04u8, 0x01u8]
    }

    open spec fn spec_xap_version() -> u32 {
        0x00000300
    }

    open spec fn spec_payload(&self) -> Seq<u8> {
        Seq::empty()
    }

    fn id() -> (r: &'static [u8]) {
        let r: &'static [u8] = &[0x06, 0x04, 0x01];
        assert(r@ =~= seq![0x06u8, 0x04u8, 0x01u8]);
        r
    }

    fn xap_version() -> (r: u32) {
        0x00000300
    }

    fn payload(&self) -> (r: Vec<u8>) {
        let r: Vec<u8> = Vec::new();
        assert(r@ =~= Seq::<u8>::empty());
        r
    }
}

#[derive(Debug, Default, Clone, Copy, PartialEq, Eq, Structural)]
pub struct CapabilitiesQueryResponseArg(pub u32);

impl XapResponse for CapabilitiesQueryResponseArg {
    type Model = u32;

    open spec fn model(&self) -> u32 {
        self.0
    }

    open spec fn spec_decode(payload: Seq<u8>) -> Result<u32, XapError> {
        crate::response::spec_decode_u32(payload)
    }

    fn decode(payload: &[u8]) -> (r: Result<CapabilitiesQueryResponseArg, XapError>) {
        match crate::response::decode_u32(payload) {
            Ok(v) => Ok(CapabilitiesQueryResponseArg(v)),
            Err(e) => Err(e),
        }
    }
}

/// Get Enabled Effects
///
/// Each bit should be considered as a "usable" effect id
#[derive(Debug, Default, Clone, Copy)]
pub struct GetEnabledEffectsRequest(pub ());

impl XapRequest for GetEnabledEffectsRequest {
    type Response = GetEnabledEffectsResponseArg;

    open spec fn spec_id() -> Seq<u8> {
        seq![0x06u8, 0x04u8, 0x02u8]
    }

    open spec fn spec_xap_version() -> u32 {
        0x00000300
    }

    open spec fn spec_payload(&self) -> Seq<u8> {
        Seq::empty()
    }

    fn id() -> (r: &'static [u8]) {
        let r: &'static [u8] = &[0x06, 0x04, 0x02];
        assert(r@ =~= seq![0x06u8, 0x04u8, 0x02u8]);
        r
    }

    fn xap_version() -> (r: u32) {
        0x00000300
    }

    fn payload(&self) -> (r: Vec<u8>) {
        let r: Vec<u8> = Vec::new();
        assert(r@ =~= Seq::<u8>::empty());
        r
    }
}

#[derive(Debug, Default, Clone, Copy, PartialEq, Eq, Structural)]
pub struct GetEnabledEffectsResponseArg(pub u64);

impl XapResponse for GetEnabledEffectsResponseArg {
    type Model = u64;

    open spec fn model(&self) -> u64 {
        self.0
    }

    open spec fn spec_decode(payload: Seq<u8>) -> Result<u64, XapError> {
        crate::response::spec_decode_u64(payload)
    }

    fn decode(payload: &[u8]) -> (r: Result<GetEnabledEffectsResponseArg, XapError>) {
        match crate::response::decode_u64(payload) {
            Ok(v) => Ok(GetEnabledEffectsResponseArg(v)),
            Err(e) => Err(e),
        }
    }
}

/// Get Config
///
/// Query the current config.
#[derive(Debug, Default, Clone, Copy)]
pub struct GetConfigRequest(pub ());

impl XapRequest for GetConfigRequest {
    type Response = GetConfigResponseArg;

    open spec fn spec_id() -> Seq<u8> {
        seq![0x06u8, 0x04u8, 0x03u8]
    }

    open spec fn spec_xap_version() -> u32 {
        0x00000300
    }

    open spec fn spec_payload(&self) -> Seq<u8> {
        Seq::empty()
    }

    fn id() -> (r: &'static [u8]) {
        let r: &'static [u8] = &[0x06, 0x04, 0x03];
        assert(r@ =~= seq![0x06u8, 0x04u8, 0x03u8]);
        r
    }

    fn xap_version() -> (r: u32) {
        0x00000300
    }

    fn payload(&self) -> (r: Vec<u8>) {
        let r: Vec<u8> = Vec::new();
        assert(r@ =~= Seq::<u8>::empty());
        r
    }
}

#[derive(Debug, Default, Clone, Copy, PartialEq, Eq, Structural)]
pub struct GetConfigResponseArg {
    pub enable: u8,
    pub mode: u8,
    pub hue: u8,
    pub sat: u8,
    pub val: u8,
    pub speed: u8,
    pub flags: u8,
}

impl XapResponse for GetConfigResponseArg {
    type Model = GetConfigResponseArg;

    open spec fn model(&self) -> GetConfigResponseArg {
        *self
    }

    open spec fn spec_decode(payload: Seq<u8>) -> Result<GetConfigResponseArg, XapError> {
        if payload.len() < 7 {
            Err(XapError::UnexpectedEndOfInput)
        } else {
            Ok(GetConfigResponseArg { enable: payload[0], mode: payload[1], hue: payload[2], sat: payload[3], val: payload[4], speed: payload[5], flags: payload[6] })
        }
    }

    fn decode(payload: &[u8]) -> (r: Result<GetConfigResponseArg, XapError>) {
        if payload.len() < 7 {
            Err(XapError::UnexpectedEndOfInput)
        } else {
            Ok(GetConfigResponseArg { enable: payload[0], mode: payload[1], hue: payload[2], sat: payload[3], val: payload[4], speed: payload[5], flags: payload[6] })
        }
    }
}

#[derive(Debug, Default, Clone, Copy, PartialEq, Eq, Structural)]
pub struct SetConfigRequestArg {
    pub enable: u8,
    pub mode: u8,
    pub hue: u8,
    pub sat: u8,
    pub val: u8,
    pub speed: u8,
    pub flags: u8,
}

impl SetConfigRequestArg {
    /// The fields in declaration order, integers little-endian.
    pub open spec fn spec_encode(&self) -> Seq<u8> {
        seq![self.enable] + seq![self.mode] + seq![self.hue] + seq![self.sat] + seq![self.val] + seq![self.speed] + seq![self.flags]
    }

    pub fn encode(&self) -> (r: Vec<u8>)
        ensures
            r@ == self.spec_encode(),
    {
        let mut out: Vec<u8> = Vec::new();
        out.push(self.enable);
        out.push(self.mode);
        out.push(self.hue);
        out.push(self.sat);
        out.push(self.val);
        out.push(self.speed);
        out.push(self.flags);
        assert(out@ =~= self.spec_encode());
        out
    }
}

#[derive(Debug, Default, Clone, Copy)]
pub struct SetConfigRequest(pub SetConfigRequestArg);

impl XapRequest for SetConfigRequest {
    type Response = ();

    open spec fn spec_id() -> Seq<u8> {
        seq![0x06u8, 0x04u8, 0x04u8]
    }

    open spec fn spec_xap_version() -> u32 {
        0x00000300
    }

    open spec fn spec_payload(&self) -> Seq<u8> {
        self.0.spec_encode()
    }

    fn id() -> (r: &'static [u8]) {
        let r: &'static [u8] = &[0x06, 0x04, 0x04];
        assert(r@ =~= seq![0x06u8, 0x04u8, 0x04u8]);
        r
    }

    fn xap_version() -> (r: u32) {
        0x00000300
    }

    fn payload(&self) -> (r: Vec<u8>) {
        self.0.encode()
    }
}

/// Save Config
///
/// Save the current config.
#[derive(Debug, Default, Clone, Copy)]
pub struct SaveConfigRequest(pub ());

impl XapRequest for SaveConfigRequest {
    type Response = ();

    open spec fn spec_id() -> Seq<u8> {
        seq![0x06u8, 0x04u8, 0x05u8]
    }

    open spec fn spec_xap_version() -> u32 {
        0x00000300
    }

    open spec fn spec_payload(&self) -> Seq<u8> {
        Seq::empty()
    }

    fn id() -> (r: &'static [u8]) {
        let r: &'static [u8] = &[0x06, 0x04, 0x05];
        assert(r@ =~= seq![0x06u8, 0x04u8, 0x05u8]);
        r
    }

    fn xap_version() -> (r: u32) {
        0x00000300
    }

    fn payload(&self) -> (r: Vec<u8>) {
        let r: Vec<u8> = Vec::new();
        assert(r@ =~= Seq::<u8>::empty());
        r
    }
}

} // verus!

//! Structures shared by several routes.
use vstd::prelude::*;

use crate::error::XapError;
use crate::request::XapResponse;

verus! {

/// RGB config for RGB lighting subsystem
#[derive(Debug, Default, Clone, Copy, PartialEq, Eq, Structural)]
pub struct RgbLightConfig {
    pub enable: u8,
    pub mode: u8,
    pub hue: u8,
    pub sat: u8,
    pub val: u8,
    pub speed: u8,
}

impl RgbLightConfig {
    /// The fields in declaration order, integers little-endian.
    pub open spec fn spec_encode(&self) -> Seq<u8> {
        seq![self.enable] + seq![self.mode] + seq![self.hue] + seq![self.sat] + seq![self.val] + seq![self.speed]
    }

    pub fn encode(&self) -> (r: Vec<u8>)
        ensures
            r@ == self.spec_encode(),
    {
        let mut out: Vec<u8> = Vec::new();
        out.push(self.enable);
        out.push(self.mode);
        out.push(self.hue);
        out.push(self.sat);
        out.push(self.val);
        out.push(self.speed);
        assert(out@ =~= self.spec_encode());
        out
    }
}

impl XapResponse for RgbLightConfig {
    type Model = RgbLightConfig;

    open spec fn model(&self) -> RgbLightConfig {
        *self
    }

    open spec fn spec_decode(payload: Seq<u8>) -> Result<RgbLightConfig, XapError> {
        if payload.len() < 6 {
            Err(XapError::UnexpectedEndOfInput)
        } else {
            Ok(RgbLightConfig { enable: payload[0], mode: payload[1], hue: payload[2], sat: payload[3], val: payload[4], speed: payload[5] })
        }
    }

    fn decode(payload: &[u8]) -> (r: Result<RgbLightConfig, XapError>) {
        if payload.len() < 6 {
            Err(XapError::UnexpectedEndOfInput)
        } else {
            Ok(RgbLightConfig { enable: payload[0], mode: payload[1], hue: payload[2], sat: payload[3], val: payload[4], speed: payload[5] })
        }
    }
}

/// RGB config for RGB matrix subsystem
#[derive(Debug, Default, Clone, Copy, PartialEq, Eq, Structural)]
pub struct RgbMatrixConfig {
    pub enable: u8,
    pub mode: u8,
    pub hue: u8,
    pub sat: u8,
    pub val: u8,
    pub speed: u8,
    pub flags: u8,
}

impl RgbMatrixConfig {
    /// The fields in declaration order, integers little-endian.
    pub open spec fn spec_encode(&self) -> Seq<u8> {
        seq![self.enable] + seq![self.mode] + seq![self.hue] + seq![self.sat] + seq![self.val] + seq![self.speed] + seq![self.flags]
    }

    pub fn encode(&self) -> (r: Vec<u8>)
        ensures
            r@ == self.spec_encode(),
    {
        let mut out: Vec<u8> = Vec::new();
        out.push(self.enable);
        out.push(self.mode);
        out.push(self.hue);
        out.push(self.sat);
        out.push(self.val);
        out.push(self.speed);
        out.push(self.flags);
        assert(out@ =~= self.spec_encode());
        out
    }
}

impl XapResponse for RgbMatrixConfig {
    type Model = RgbMatrixConfig;

    open spec fn model(&self) -> RgbMatrixConfig {
        *self
    }

    open spec fn spec_decode(payload: Seq<u8>) -> Result<RgbMatrixConfig, XapError> {
        if payload.len() < 7 {
            Err(XapError::UnexpectedEndOfInput)
        } else {
            Ok(RgbMatrixConfig { enable: payload[0], mode: payload[1], hue: payload[2], sat: payload[3], val: payload[4], speed: payload[5], flags: payload[6] })
        }
    }

    fn decode(payload: &[u8]) -> (r: Result<RgbMatrixConfig, XapError>) {
        if payload.len() < 7 {
            Err(XapError::UnexpectedEndOfInput)
        } else {
            Ok(RgbMatrixConfig { enable: payload[0], mode: payload[1], hue: payload[2], sat: payload[3], val: payload[4], speed: payload[5], flags: payload[6] })
        }
    }
}

/// Packet format for inbound data.
#[derive(Debug, Default, Clone, Copy, PartialEq, Eq, Structural)]
pub struct RequestHeader {
    pub length: u8,
}

impl RequestHeader {
    /// The fields in declaration order, integers little-endian.
    pub open spec fn spec_encode(&self) -> Seq<u8> {
        seq![self.length]
    }

    pub fn encode(&self) -> (r: Vec<u8>)
        ensures
            r@ == self.spec_encode(),
    {
        let mut out: Vec<u8> = Vec::new();
        out.push(self.length);
        assert(out@ =~= self.spec_encode());
        out
    }
}

impl XapResponse for RequestHeader {
    type Model = RequestHeader;

    open spec fn model(&self) -> RequestHeader {
        *self
    }

    open spec fn spec_decode(payload: Seq<u8>) -> Result<RequestHeader, XapError> {
        if payload.len() < 1 {
            Err(XapError::UnexpectedEndOfInput)
        } else {
            Ok(RequestHeader { length: payload[0] })
        }
    }

    fn decode(payload: &[u8]) -> (r: Result<RequestHeader, XapError>) {
        if payload.len() < 1 {
            Err(XapError::UnexpectedEndOfInput)
        } else {
            Ok(RequestHeader { length: payload[0] })
        }
    }
}

/// Config for lighting subsystem
#[derive(Debug, Default, Clone, Copy, PartialEq, Eq, Structural)]
pub struct BacklightConfig {
    pub enable: u8,
    pub mode: u8,
    pub val: u8,
}

impl BacklightConfig {
    /// The fields in declaration order, integers little-endian.
    pub open spec fn spec_encode(&self) -> Seq<u8> {
        seq![self.enable] + seq![self.mode] + seq![self.val]
    }

    pub fn encode(&self) -> (r: Vec<u8>)
        ensures
            r@ == self.spec_encode(),
    {
        let mut out: Vec<u8> = Vec::new();
        out.push(self.enable);
        out.push(self.mode);
        out.push(self.val);
        assert(out@ =~= self.spec_encode());
        out
    }
}

impl XapResponse for BacklightConfig {
    type Model = BacklightConfig;

    open spec fn model(&self) -> BacklightConfig {
        *self
    }

    open spec fn spec_decode(payload: Seq<u8>) -> Result<BacklightConfig, XapError> {
        if payload.len() < 3 {
            Err(XapError::UnexpectedEndOfInput)
        } else {
            Ok(BacklightConfig { enable: payload[0], mode: payload[1], val: payload[2] })
        }
    }

    fn decode(payload: &[u8]) -> (r: Result<BacklightConfig, XapError>) {
        if payload.len() < 3 {
            Err(XapError::UnexpectedEndOfInput)
        } else {
            Ok(BacklightConfig { enable: payload[0], mode: payload[1], val: payload[2] })
        }
    }
}

/// Config for audio subsystem
#[derive(Debug, Default, Clone, Copy, PartialEq, Eq, Structural)]
pub struct AudioConfig {
    pub enable: u8,
    pub clicky_enable: u8,
}

impl AudioConfig {
    /// The fields in declaration order, integers little-endian.
    pub open spec fn spec_encode(&self) -> Seq<u8> {
        seq![self.enable] + seq![self.clicky_enable]
    }

    pub fn encode(&self) -> (r: Vec<u8>)
        ensures
            r@ == self.spec_encode(),
    {
        let mut out: Vec<u8> = Vec::new();
        out.push(self.enable);
        out.push(self.clicky_enable);
        assert(out@ =~= self.spec_encode());
        out
    }
}

impl XapResponse for AudioConfig {
    type Model = AudioConfig;

    open spec fn model(&self) -> AudioConfig {
        *self
    }

    open spec fn spec_decode(payload: Seq<u8>) -> Result<AudioConfig, XapError> {
        if payload.len() < 2 {
            Err(XapError::UnexpectedEndOfInput)
        } else {
            Ok(AudioConfig { enable: payload[0], clicky_enable: payload[1] })
        }
    }

    fn decode(payload: &[u8]) -> (r: Result<AudioConfig, XapError>) {
        if payload.len() < 2 {
            Err(XapError::UnexpectedEndOfInput)
        } else {
            Ok(AudioConfig { enable: payload[0], clicky_enable: payload[1] })
        }
    }
}

/// Packet format for outbound data.
#[derive(Debug, Default, Clone, Copy, PartialEq, Eq, Structural)]
pub struct ResponseHeader {
    pub length: u8,
}

impl ResponseHeader {
    /// The fields in declaration order, integers little-endian.
    pub open spec fn spec_encode(&self) -> Seq<u8> {
        seq![self.length]
    }

    pub fn encode(&self) -> (r: Vec<u8>)
        ensures
            r@ == self.spec_encode(),
    {
        let mut out: Vec<u8> = Vec::new();
        out.push(self.length);
        assert(out@ =~= self.spec_encode());
        out
    }
}

impl XapResponse for ResponseHeader {
    type Model = ResponseHeader;

    open spec fn model(&self) -> ResponseHeader {
        *self
    }

    open spec fn spec_decode(payload: Seq<u8>) -> Result<ResponseHeader, XapError> {
        if payload.len() < 1 {
            Err(XapError::UnexpectedEndOfInput)
        } else {
            Ok(ResponseHeader { length: payload[0] })
        }
    }

    fn decode(payload: &[u8]) -> (r: Result<ResponseHeader, XapError>) {
        if payload.len() < 1 {
            Err(XapError::UnexpectedEndOfInput)
        } else {
            Ok(ResponseHeader { length: payload[0] })
        }
    }
}

/// Packet format for broadcast messages.
#[derive(Debug, Default, Clone, Copy, PartialEq, Eq, Structural)]
pub struct BroadcastHeader {
    pub broadcast_type: u8,
    pub length: u8,
}

impl BroadcastHeader {
    /// The fields in declaration order, integers little-endian.
    pub open spec fn spec_encode(&self) -> Seq<u8> {
        seq![self.broadcast_type] + seq![self.length]
    }

    pub fn encode(&self) -> (r: Vec<u8>)
        ensures
            r@ == self.spec_encode(),
    {
        let mut out: Vec<u8> = Vec::new();
        out.push(self.broadcast_type);
        out.push(self.length);
        assert(out@ =~= self.spec_encode());
        out
    }
}

impl XapResponse for BroadcastHeader {
    type Model = BroadcastHeader;

    open spec fn model(&self) -> BroadcastHeader {
        *self
    }

    open spec fn spec_decode(payload: Seq<u8>) -> Result<BroadcastHeader, XapError> {
        if payload.len() < 2 {
            Err(XapError::UnexpectedEndOfInput)
        } else {
            Ok(BroadcastHeader { broadcast_type: payload[0], length: payload[1] })
        }
    }

    fn decode(payload: &[u8]) -> (r: Result<BroadcastHeader, XapError>) {
        if payload.len() < 2 {
            Err(XapError::UnexpectedEndOfInput)
        } else {
            Ok(BroadcastHeader { broadcast_type: payload[0], length: payload[1] })
        }
    }
}

} // verus!

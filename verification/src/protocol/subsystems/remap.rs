//! Routes of the remapping subsystem, addressed by route id.
use vstd::prelude::*;

use crate::error::XapError;
use crate::protocol::XAPRequest;
use crate::request::XapResponse;
verus! {

/// Routes of the remapping subsystem the device supports, one bit per route id.
#[derive(Debug, Clone, Copy, PartialEq, Eq, PartialOrd, Ord, Hash, Structural)]
pub struct RemapCapabilities(u32);

impl RemapCapabilities {
    pub const CAPABILITIES: u32 = 1 << 1;

    pub const LAYER_COUNT: u32 = 1 << 2;

    pub const SET_KEYCODE: u32 = 1 << 3;

    pub const SET_ENCODER_KEYCODE: u32 = 1 << 4;

    pub closed spec fn spec_bits(&self) -> u32 {
        self.0
    }

    pub fn from_bits_retain(bits: u32) -> (r: RemapCapabilities)
        ensures
            r.spec_bits() == bits,
    {
        RemapCapabilities(bits)
    }

    pub fn bits(&self) -> (r: u32)
        ensures
            r == self.spec_bits(),
    {
        self.0
    }

    /// Whether every bit of `flag` is set.
    pub fn contains(&self, flag: u32) -> (r: bool)
        ensures
            r == (self.spec_bits() & flag == flag),
    {
        self.0 & flag == flag
    }
}

impl XapResponse for RemapCapabilities {
    type Model = u32;

    open spec fn model(&self) -> u32 {
        self.spec_bits()
    }

    open spec fn spec_decode(payload: Seq<u8>) -> Result<u32, XapError> {
        crate::response::spec_decode_u32(payload)
    }

    fn decode(payload: &[u8]) -> (r: Result<RemapCapabilities, XapError>) {
        match crate::response::decode_u32(payload) {
            Ok(v) => Ok(RemapCapabilities(v)),
            Err(e) => Err(e),
        }
    }
}

/// Route 0x5 0x1: the remapping routes the device supports.
#[derive(Debug, Default, Clone, Copy)]
pub struct RemapCapabilitiesQuery;

impl XAPRequest for RemapCapabilitiesQuery {
    type Response = RemapCapabilities;

    open spec fn spec_id() -> Seq<u8> {
        seq![0x5u8, 0x1u8]
    }

    open spec fn spec_is_secure() -> bool {
        false
    }

    open spec fn spec_payload(&self) -> Seq<u8> {
        Seq::empty()
    }

    fn id() -> (r: &'static [u8]) {
        let r: &'static [u8] = &[0x5, 0x1];
        assert(r@ =~= seq![0x5u8, 0x1u8]);
        r
    }

    fn is_secure() -> (r: bool) {
        false
    }

    fn payload(&self) -> (r: Vec<u8>) {
        let r: Vec<u8> = Vec::new();
        assert(r@ =~= Seq::<u8>::empty());
        r
    }
}

/// The number of remappable layers.
#[derive(Debug, Default, Clone, Copy, PartialEq, Eq, Structural)]
pub struct RemapLayerCount(pub u8);

impl XapResponse for RemapLayerCount {
    type Model = u8;

    open spec fn model(&self) -> u8 {
        self.0
    }

    open spec fn spec_decode(payload: Seq<u8>) -> Result<u8, XapError> {
        crate::response::spec_decode_u8(payload)
    }

    fn decode(payload: &[u8]) -> (r: Result<RemapLayerCount, XapError>) {
        match crate::response::decode_u8(payload) {
            Ok(v) => Ok(RemapLayerCount(v)),
            Err(e) => Err(e),
        }
    }
}

/// Route 0x5 0x2: the number of layers.
#[derive(Debug, Default, Clone, Copy)]
pub struct RemapLayerCountQuery;

impl XAPRequest for RemapLayerCountQuery {
    type Response = RemapLayerCount;

    open spec fn spec_id() -> Seq<u8> {
        seq![0x5u8, 0x2u8]
    }

    open spec fn spec_is_secure() -> bool {
        false
    }

    open spec fn spec_payload(&self) -> Seq<u8> {
        Seq::empty()
    }

    fn id() -> (r: &'static [u8]) {
        let r: &'static [u8] = &[0x5, 0x2];
        assert(r@ =~= seq![0x5u8, 0x2u8]);
        r
    }

    fn is_secure() -> (r: bool) {
        false
    }

    fn payload(&self) -> (r: Vec<u8>) {
        let r: Vec<u8> = Vec::new();
        assert(r@ =~= Seq::<u8>::empty());
        r
    }
}

/// A keycode for a matrix position.
#[derive(Debug, Default, Clone, Copy, PartialEq, Eq, Structural)]
pub struct KeyPositionConfig {
    pub layer: u8,
    pub row: u8,
    pub col: u8,
    pub keycode: u16,
}

impl KeyPositionConfig {
    /// The fields in declaration order, integers little-endian.
    pub open spec fn spec_encode(&self) -> Seq<u8> {
        seq![self.layer] + seq![self.row] + seq![self.col] + crate::wire::spec_u16_le_bytes(self.keycode)
    }

    pub fn encode(&self) -> (r: Vec<u8>)
        ensures
            r@ == self.spec_encode(),
    {
        let mut out: Vec<u8> = Vec::new();
        out.push(self.layer);
        out.push(self.row);
        out.push(self.col);
        crate::wire::push_u16_le(&mut out, self.keycode);
        assert(out@ =~= self.spec_encode());
        out
    }
}

impl XapResponse for KeyPositionConfig {
    type Model = KeyPositionConfig;

    open spec fn model(&self) -> KeyPositionConfig {
        *self
    }

    open spec fn spec_decode(payload: Seq<u8>) -> Result<KeyPositionConfig, XapError> {
        if payload.len() < 5 {
            Err(XapError::UnexpectedEndOfInput)
        } else {
            Ok(KeyPositionConfig { layer: payload[0], row: payload[1], col: payload[2], keycode: crate::wire::spec_u16_le(payload, 3) })
        }
    }

    fn decode(payload: &[u8]) -> (r: Result<KeyPositionConfig, XapError>) {
        if payload.len() < 5 {
            Err(XapError::UnexpectedEndOfInput)
        } else {
            Ok(KeyPositionConfig { layer: payload[0], row: payload[1], col: payload[2], keycode: crate::wire::read_u16_le(payload, 3) })
        }
    }
}

/// Route 0x5 0x3: sets the keycode at a matrix position; a secure route.
#[derive(Debug, Clone, Copy)]
pub struct RemapKeycodeQuery(pub KeyPositionConfig);

impl XAPRequest for RemapKeycodeQuery {
    type Response = ();

    open spec fn spec_id() -> Seq<u8> {
        seq![0x5u8, 0x3u8]
    }

    open spec fn spec_is_secure() -> bool {
        true
    }

    open spec fn spec_payload(&self) -> Seq<u8> {
        self.0.spec_encode()
    }

    fn id() -> (r: &'static [u8]) {
        let r: &'static [u8] = &[0x5, 0x3];
        assert(r@ =~= seq![0x5u8, 0x3u8]);
        r
    }

    fn is_secure() -> (r: bool) {
        true
    }

    fn payload(&self) -> (r: Vec<u8>) {
        self.0.encode()
    }
}

/// A keycode for an encoder and direction.
#[derive(Debug, Default, Clone, Copy, PartialEq, Eq, Structural)]
pub struct EncoderPositionConfig {
    pub layer: u8,
    pub encoder: u8,
    pub clockwise: u8,
    pub keycode: u16,
}

impl EncoderPositionConfig {
    /// The fields in declaration order, integers little-endian.
    pub open spec fn spec_encode(&self) -> Seq<u8> {
        seq![self.layer] + seq![self.encoder] + seq![self.clockwise] + crate::wire::spec_u16_le_bytes(self.keycode)
    }

    pub fn encode(&self) -> (r: Vec<u8>)
        ensures
            r@ == self.spec_encode(),
    {
        let mut out: Vec<u8> = Vec::new();
        out.push(self.layer);
        out.push(self.encoder);
        out.push(self.clockwise);
        crate::wire::push_u16_le(&mut out, self.keycode);
        assert(out@ =~= self.spec_encode());
        out
    }
}

impl XapResponse for EncoderPositionConfig {
    type Model = EncoderPositionConfig;

    open spec fn model(&self) -> EncoderPositionConfig {
        *self
    }

    open spec fn spec_decode(payload: Seq<u8>) -> Result<EncoderPositionConfig, XapError> {
        if payload.len() < 5 {
            Err(XapError::UnexpectedEndOfInput)
        } else {
            Ok(EncoderPositionConfig { layer: payload[0], encoder: payload[1], clockwise: payload[2], keycode: crate::wire::spec_u16_le(payload, 3) })
        }
    }

    fn decode(payload: &[u8]) -> (r: Result<EncoderPositionConfig, XapError>) {
        if payload.len() < 5 {
            Err(XapError::UnexpectedEndOfInput)
        } else {
            Ok(EncoderPositionConfig { layer: payload[0], encoder: payload[1], clockwise: payload[2], keycode: crate::wire::read_u16_le(payload, 3) })
        }
    }
}

/// Route 0x5 0x4: sets the keycode of an encoder; a secure route.
#[derive(Debug, Clone, Copy)]
pub struct RemapEncoderQuery(pub EncoderPositionConfig);

impl XAPRequest for RemapEncoderQuery {
    type Response = ();

    open spec fn spec_id() -> Seq<u8> {
        seq![0x5u8, 0x4u8]
    }

    open spec fn spec_is_secure() -> bool {
        true
    }

    open spec fn spec_payload(&self) -> Seq<u8> {
        self.0.spec_encode()
    }

    fn id() -> (r: &'static [u8]) {
        let r: &'static [u8] = &[0x5, 0x4];
        assert(r@ =~= seq![0x5u8, 0x4u8]);
        r
    }

    fn is_secure() -> (r: bool) {
        true
    }

    fn payload(&self) -> (r: Vec<u8>) {
        self.0.encode()
    }
}

} // verus!

//! Routes of the keymap subsystem, addressed by route id.
use vstd::prelude::*;

use crate::error::XapError;
use crate::protocol::XAPRequest;
use crate::request::XapResponse;
pub use crate::layout::KeyPosition;
verus! {

/// Routes of the keymap subsystem the device supports, one bit per route id.
#[derive(Debug, Clone, Copy, PartialEq, Eq, PartialOrd, Ord, Hash, Structural)]
pub struct KeymapCapabilities(u32);

impl KeymapCapabilities {
    pub const CAPABILITIES: u32 = 1 << 1;

    pub const LAYER_COUNT: u32 = 1 << 2;

    pub const GET_KEYCODE: u32 = 1 << 3;

    pub const GET_ENCODER_KEYCODE: u32 = 1 << 4;

    pub closed spec fn spec_bits(&self) -> u32 {
        self.0
    }

    pub fn from_bits_retain(bits: u32) -> (r: KeymapCapabilities)
        ensures
            r.spec_bits() == bits,
    {
        KeymapCapabilities(bits)
    }

    pub fn bits(&self) -> (r: u32)
        ensures
            r == self.spec_bits(),
    {
        self.0
    }

    /// Whether every bit of `flag` is set.
    pub fn contains(&self, flag: u32) -> (r: bool)
        ensures
            r == (self.spec_bits() & flag == flag),
    {
        self.0 & flag == flag
    }
}

impl XapResponse for KeymapCapabilities {
    type Model = u32;

    open spec fn model(&self) -> u32 {
        self.spec_bits()
    }

    open spec fn spec_decode(payload: Seq<u8>) -> Result<u32, XapError> {
        crate::response::spec_decode_u32(payload)
    }

    fn decode(payload: &[u8]) -> (r: Result<KeymapCapabilities, XapError>) {
        match crate::response::decode_u32(payload) {
            Ok(v) => Ok(KeymapCapabilities(v)),
            Err(e) => Err(e),
        }
    }
}

/// Route 0x4 0x1: the keymap routes the device supports.
#[derive(Debug, Default, Clone, Copy)]
pub struct KeymapCapabilitiesQuery;

impl XAPRequest for KeymapCapabilitiesQuery {
    type Response = KeymapCapabilities;

    open spec fn spec_id() -> Seq<u8> {
        seq![0x4u8, 0x1u8]
    }

    open spec fn spec_is_secure() -> bool {
        false
    }

    open spec fn spec_payload(&self) -> Seq<u8> {
        Seq::empty()
    }

    fn id() -> (r: &'static [u8]) {
        let r: &'static [u8] = &[0x4, 0x1];
        assert(r@ =~= seq![0x4u8, 0x1u8]);
        r
    }

    fn is_secure() -> (r: bool) {
        false
    }

    fn payload(&self) -> (r: Vec<u8>) {
        let r: Vec<u8> = Vec::new();
        assert(r@ =~= Seq::<u8>::empty());
        r
    }
}

/// The number of keymap layers.
#[derive(Debug, Default, Clone, Copy, PartialEq, Eq, Structural)]
pub struct KeymapLayerCount(pub u8);

impl XapResponse for KeymapLayerCount {
    type Model = u8;

    open spec fn model(&self) -> u8 {
        self.0
    }

    open spec fn spec_decode(payload: Seq<u8>) -> Result<u8, XapError> {
        crate::response::spec_decode_u8(payload)
    }

    fn decode(payload: &[u8]) -> (r: Result<KeymapLayerCount, XapError>) {
        match crate::response::decode_u8(payload) {
            Ok(v) => Ok(KeymapLayerCount(v)),
            Err(e) => Err(e),
        }
    }
}

/// Route 0x4 0x2: the number of layers.
#[derive(Debug, Default, Clone, Copy)]
pub struct KeymapLayerCountQuery;

impl XAPRequest for KeymapLayerCountQuery {
    type Response = KeymapLayerCount;

    open spec fn spec_id() -> Seq<u8> {
        seq![0x4u8, 0x2u8]
    }

    open spec fn spec_is_secure() -> bool {
        false
    }

    open spec fn spec_payload(&self) -> Seq<u8> {
        Seq::empty()
    }

    fn id() -> (r: &'static [u8]) {
        let r: &'static [u8] = &[0x4, 0x2];
        assert(r@ =~= seq![0x4u8, 0x2u8]);
        r
    }

    fn is_secure() -> (r: bool) {
        false
    }

    fn payload(&self) -> (r: Vec<u8>) {
        let r: Vec<u8> = Vec::new();
        assert(r@ =~= Seq::<u8>::empty());
        r
    }
}

/// A keycode.
#[derive(Debug, Default, Clone, Copy, PartialEq, Eq, Structural)]
pub struct KeyCode(pub u16);

impl XapResponse for KeyCode {
    type Model = u16;

    open spec fn model(&self) -> u16 {
        self.0
    }

    open spec fn spec_decode(payload: Seq<u8>) -> Result<u16, XapError> {
        crate::response::spec_decode_u16(payload)
    }

    fn decode(payload: &[u8]) -> (r: Result<KeyCode, XapError>) {
        match crate::response::decode_u16(payload) {
            Ok(v) => Ok(KeyCode(v)),
            Err(e) => Err(e),
        }
    }
}

/// Route 0x4 0x3: the keycode at a matrix position.
#[derive(Debug, Clone, Copy)]
pub struct KeymapKeycodeQuery(pub KeyPosition);

impl XAPRequest for KeymapKeycodeQuery {
    type Response = KeyCode;

    open spec fn spec_id() -> Seq<u8> {
        seq![0x4u8, 0x3u8]
    }

    open spec fn spec_is_secure() -> bool {
        false
    }

    open spec fn spec_payload(&self) -> Seq<u8> {
        self.0.spec_encode()
    }

    fn id() -> (r: &'static [u8]) {
        let r: &'static [u8] = &[0x4, 0x3];
        assert(r@ =~= seq![0x4u8, 0x3u8]);
        r
    }

    fn is_secure() -> (r: bool) {
        false
    }

    fn payload(&self) -> (r: Vec<u8>) {
        self.0.encode()
    }
}

/// An encoder on a layer and its turning direction.
#[derive(Debug, Default, Clone, Copy, PartialEq, Eq, Structural)]
pub struct EncoderPosition {
    layer: u8,
    encoder: u8,
    clockwise: u8,
}

impl EncoderPosition {
    /// The fields in declaration order, integers little-endian.
    pub closed spec fn spec_encode(&self) -> Seq<u8> {
        seq![self.layer] + seq![self.encoder] + seq![self.clockwise]
    }

    pub fn encode(&self) -> (r: Vec<u8>)
        ensures
            r@ == self.spec_encode(),
    {
        let mut out: Vec<u8> = Vec::new();
        out.push(self.layer);
        out.push(self.encoder);
        out.push(self.clockwise);
        assert(out@ =~= self.spec_encode());
        out
    }
}

/// Route 0x4 0x4: the keycode of an encoder.
#[derive(Debug, Clone, Copy)]
pub struct KeymapEncoderQuery(pub EncoderPosition);

impl XAPRequest for KeymapEncoderQuery {
    type Response = KeyCode;

    open spec fn spec_id() -> Seq<u8> {
        seq![0x4u8, 0x4u8]
    }

    open spec fn spec_is_secure() -> bool {
        false
    }

    open spec fn spec_payload(&self) -> Seq<u8> {
        self.0.spec_encode()
    }

    fn id() -> (r: &'static [u8]) {
        let r: &'static [u8] = &[0x4, 0x4];
        assert(r@ =~= seq![0x4u8, 0x4u8]);
        r
    }

    fn is_secure() -> (r: bool) {
        false
    }

    fn payload(&self) -> (r: Vec<u8>) {
        self.0.encode()
    }
}

} // verus!

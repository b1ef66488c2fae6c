//! Routes of the RGB matrix part of the lighting subsystem, addressed by route id.
use vstd::prelude::*;

use crate::error::XapError;
use crate::protocol::XAPRequest;
use crate::request::XapResponse;
verus! {

/// Routes of the RGB matrix part the device supports, one bit per route id.
#[derive(Debug, Clone, Copy, PartialEq, Eq, PartialOrd, Ord, Hash, Structural)]
pub struct RGBMatrixCapabilities(u32);

impl RGBMatrixCapabilities {
    pub const CAPABILITIES: u32 = 1 << 1;

    pub const ENABLED_EFFECTS: u32 = 1 << 2;

    pub const GET_CONFIG: u32 = 1 << 3;

    pub const SET_CONFIG: u32 = 1 << 4;

    pub const SAVE_CONFIG: u32 = 1 << 5;

    pub closed spec fn spec_bits(&self) -> u32 {
        self.0
    }

    pub fn from_bits_retain(bits: u32) -> (r: RGBMatrixCapabilities)
        ensures
            r.spec_bits() == bits,
    {
        RGBMatrixCapabilities(bits)
    }

    pub fn bits(&self) -> (r: u32)
        ensures
            r == self.spec_bits(),
    {
        self.0
    }

    /// Whether every bit of `flag` is set.
    pub fn contains(&self, flag: u32) -> (r: bool)
        ensures
            r == (self.spec_bits() & flag == flag),
    {
        self.0 & flag == flag
    }
}

impl XapResponse for RGBMatrixCapabilities {
    type Model = u32;

    open spec fn model(&self) -> u32 {
        self.spec_bits()
    }

    open spec fn spec_decode(payload: Seq<u8>) -> Result<u32, XapError> {
        crate::response::spec_decode_u32(payload)
    }

    fn decode(payload: &[u8]) -> (r: Result<RGBMatrixCapabilities, XapError>) {
        match crate::response::decode_u32(payload) {
            Ok(v) => Ok(RGBMatrixCapabilities(v)),
            Err(e) => Err(e),
        }
    }
}

/// Route 0x6 0x4 0x1: the RGB matrix routes the device supports.
#[derive(Debug, Default, Clone, Copy)]
pub struct RGBMatrixCapabilitiesQuery;

impl XAPRequest for RGBMatrixCapabilitiesQuery {
    type Response = RGBMatrixCapabilities;

    open spec fn spec_id() -> Seq<u8> {
        seq![0x6u8, 0x4u8, 0x1u8]
    }

    open spec fn spec_is_secure() -> bool {
        false
    }

    open spec fn spec_payload(&self) -> Seq<u8> {
        Seq::empty()
    }

    fn id() -> (r: &'static [u8]) {
        let r: &'static [u8] = &[0x6, 0x4, 0x1];
        assert(r@ =~= seq![0x6u8, 0x4u8, 0x1u8]);
        r
    }

    fn is_secure() -> (r: bool) {
        false
    }

    fn payload(&self) -> (r: Vec<u8>) {
        let r: Vec<u8> = Vec::new();
        assert(r@ =~= Seq::<u8>::empty());
        r
    }
}

pub use crate::effects::RGBMatrixEffects;

/// Route 0x6 0x4 0x2: the RGB matrix effects the device enables.
#[derive(Debug, Default, Clone, Copy)]
pub struct RGBMatrixEffectsQuery;

impl XAPRequest for RGBMatrixEffectsQuery {
    type Response = RGBMatrixEffects;

    open spec fn spec_id() -> Seq<u8> {
        seq![0x6u8, 0x4u8, 0x2u8]
    }

    open spec fn spec_is_secure() -> bool {
        false
    }

    open spec fn spec_payload(&self) -> Seq<u8> {
        Seq::empty()
    }

    fn id() -> (r: &'static [u8]) {
        let r: &'static [u8] = &[0x6, 0x4, 0x2];
        assert(r@ =~= seq![0x6u8, 0x4u8, 0x2u8]);
        r
    }

    fn is_secure() -> (r: bool) {
        false
    }

    fn payload(&self) -> (r: Vec<u8>) {
        let r: Vec<u8> = Vec::new();
        assert(r@ =~= Seq::<u8>::empty());
        r
    }
}

/// The RGB matrix configuration.
#[derive(Debug, Default, Clone, Copy, PartialEq, Eq, Structural)]
pub struct RGBMatrixConfig {
    pub enable: u8,
    pub mode: u8,
    pub hue: u8,
    pub sat: u8,
    pub val: u8,
    pub speed: u8,
    pub flags: u8,
}

impl RGBMatrixConfig {
    /// The fields in declaration order, integers little-endian.
    pub open spec fn spec_encode(&self) -> Seq<u8> {
        seq![self.enable] + seq![self.mode] + seq![self.hue] + seq![self.sat] + seq![self.val] + seq![self.speed] + seq![self.flags]
    }

    pub fn encode(&self) -> (r: Vec<u8>)
        ensures
            r@ == self.spec_encode(),
    {
        let mut out: Vec<u8> = Vec::new();
        out.push(self.enable);
        out.push(self.mode);
        out.push(self.hue);
        out.push(self.sat);
        out.push(self.val);
        out.push(self.speed);
        out.push(self.flags);
        assert(out@ =~= self.spec_encode());
        out
    }
}

impl XapResponse for RGBMatrixConfig {
    type Model = RGBMatrixConfig;

    open spec fn model(&self) -> RGBMatrixConfig {
        *self
    }

    open spec fn spec_decode(payload: Seq<u8>) -> Result<RGBMatrixConfig, XapError> {
        if payload.len() < 7 {
            Err(XapError::UnexpectedEndOfInput)
        } else {
            Ok(RGBMatrixConfig { enable: payload[0], mode: payload[1], hue: payload[2], sat: payload[3], val: payload[4], speed: payload[5], flags: payload[6] })
        }
    }

    fn decode(payload: &[u8]) -> (r: Result<RGBMatrixConfig, XapError>) {
        if payload.len() < 7 {
            Err(XapError::UnexpectedEndOfInput)
        } else {
            Ok(RGBMatrixConfig { enable: payload[0], mode: payload[1], hue: payload[2], sat: payload[3], val: payload[4], speed: payload[5], flags: payload[6] })
        }
    }
}

/// Route 0x6 0x4 0x3: the RGB matrix configuration.
#[derive(Debug, Default, Clone, Copy)]
pub struct RGBMatrixConfigGet;

impl XAPRequest for RGBMatrixConfigGet {
    type Response = RGBMatrixConfig;

    open spec fn spec_id() -> Seq<u8> {
        seq![0x6u8, 0x4u8, 0x3u8]
    }

    open spec fn spec_is_secure() -> bool {
        false
    }

    open spec fn spec_payload(&self) -> Seq<u8> {
        Seq::empty()
    }

    fn id() -> (r: &'static [u8]) {
        let r: &'static [u8] = &[0x6, 0x4, 0x3];
        assert(r@ =~= seq![0x6u8, 0x4u8, 0x3u8]);
        r
    }

    fn is_secure() -> (r: bool) {
        false
    }

    fn payload(&self) -> (r: Vec<u8>) {
        let r: Vec<u8> = Vec::new();
        assert(r@ =~= Seq::<u8>::empty());
        r
    }
}

/// Route 0x6 0x4 0x4: sets the RGB matrix configuration.
#[derive(Debug, Clone, Copy)]
pub struct RGBMatrixConfigSet {
    pub config: RGBMatrixConfig,
}

impl XAPRequest for RGBMatrixConfigSet {
    type Response = ();

    open spec fn spec_id() -> Seq<u8> {
        seq![0x6u8, 0x4u8, 0x4u8]
    }

    open spec fn spec_is_secure() -> bool {
        false
    }

    open spec fn spec_payload(&self) -> Seq<u8> {
        self.config.spec_encode()
    }

    fn id() -> (r: &'static [u8]) {
        let r: &'static [u8] = &[0x6, 0x4, 0x4];
        assert(r@ =~= seq![0x6u8, 0x4u8, 0x4u8]);
        r
    }

    fn is_secure() -> (r: bool) {
        false
    }

    fn payload(&self) -> (r: Vec<u8>) {
        self.config.encode()
    }
}

/// Route 0x6 0x4 0x5: saves the RGB matrix configuration.
#[derive(Debug, Default, Clone, Copy)]
pub struct RGBMatrixConfigSave;

impl XAPRequest for RGBMatrixConfigSave {
    type Response = ();

    open spec fn spec_id() -> Seq<u8> {
        seq![0x6u8, 0x4u8, 0x5u8]
    }

    open spec fn spec_is_secure() -> bool {
        false
    }

    open spec fn spec_payload(&self) -> Seq<u8> {
        Seq::empty()
    }

    fn id() -> (r: &'static [u8]) {
        let r: &'static [u8] = &[0x6, 0x4, 0x5];
        assert(r@ =~= seq![0x6u8, 0x4u8, 0x5u8]);
        r
    }

    fn is_secure() -> (r: bool) {
        false
    }

    fn payload(&self) -> (r: Vec<u8>) {
        let r: Vec<u8> = Vec::new();
        assert(r@ =~= Seq::<u8>::empty());
        r
    }
}

} // verus!

//! Routes of the RGB light part of the lighting subsystem, addressed by route id.
use vstd::prelude::*;

use crate::error::XapError;
use crate::protocol::XAPRequest;
use crate::request::XapResponse;
verus! {

pub use crate::effects::RGBLightCapabilities;

/// Route 0x6 0x3 0x1: the RGB light routes the device supports.
#[derive(Debug, Default, Clone, Copy)]
pub struct RGBLightCapabilitiesQuery;

impl XAPRequest for RGBLightCapabilitiesQuery {
    type Response = RGBLightCapabilities;

    open spec fn spec_id() -> Seq<u8> {
        seq![0x6u8, 0x3u8, 0x1u8]
    }

    open spec fn spec_is_secure() -> bool {
        false
    }

    open spec fn spec_payload(&self) -> Seq<u8> {
        Seq::empty()
    }

    fn id() -> (r: &'static [u8]) {
        let r: &'static [u8] = &[0x6, 0x3, 0x1];
        assert(r@ =~= seq![0x6u8, 0x3u8, 0x1u8]);
        r
    }

    fn is_secure() -> (r: bool) {
        false
    }

    fn payload(&self) -> (r: Vec<u8>) {
        let r: Vec<u8> = Vec::new();
        assert(r@ =~= Seq::<u8>::empty());
        r
    }
}

pub use crate::effects::RGBLightEffects;

/// Route 0x6 0x3 0x2: the RGB light effects the device enables.
#[derive(Debug, Default, Clone, Copy)]
pub struct RGBLightEffectsQuery;

impl XAPRequest for RGBLightEffectsQuery {
    type Response = RGBLightEffects;

    open spec fn spec_id() -> Seq<u8> {
        seq![0x6u8, 0x3u8, 0x2u8]
    }

    open spec fn spec_is_secure() -> bool {
        false
    }

    open spec fn spec_payload(&self) -> Seq<u8> {
        Seq::empty()
    }

    fn id() -> (r: &'static [u8]) {
        let r: &'static [u8] = &[0x6, 0x3, 0x2];
        assert(r@ =~= seq![0x6u8, 0x3u8, 0x2u8]);
        r
    }

    fn is_secure() -> (r: bool) {
        false
    }

    fn payload(&self) -> (r: Vec<u8>) {
        let r: Vec<u8> = Vec::new();
        assert(r@ =~= Seq::<u8>::empty());
        r
    }
}

/// The RGB light configuration.
#[derive(Debug, Default, Clone, Copy, PartialEq, Eq, Structural)]
pub struct RGBLightConfig {
    pub enable: u8,
    pub mode: u8,
    pub hue: u8,
    pub sat: u8,
    pub val: u8,
    pub speed: u8,
}

impl RGBLightConfig {
    /// The fields in declaration order, integers little-endian.
    pub open spec fn spec_encode(&self) -> Seq<u8> {
        seq![self.enable] + seq![self.mode] + seq![self.hue] + seq![self.sat] + seq![self.val] + seq![self.speed]
    }

    pub fn encode(&self) -> (r: Vec<u8>)
        ensures
            r@ == self.spec_encode(),
    {
        let mut out: Vec<u8> = Vec::new();
        out.push(self.enable);
        out.push(self.mode);
        out.push(self.hue);
        out.push(self.sat);
        out.push(self.val);
        out.push(self.speed);
        assert(out@ =~= self.spec_encode());
        out
    }
}

impl XapResponse for RGBLightConfig {
    type Model = RGBLightConfig;

    open spec fn model(&self) -> RGBLightConfig {
        *self
    }

    open spec fn spec_decode(payload: Seq<u8>) -> Result<RGBLightConfig, XapError> {
        if payload.len() < 6 {
            Err(XapError::UnexpectedEndOfInput)
        } else {
            Ok(RGBLightConfig { enable: payload[0], mode: payload[1], hue: payload[2], sat: payload[3], val: payload[4], speed: payload[5] })
        }
    }

    fn decode(payload: &[u8]) -> (r: Result<RGBLightConfig, XapError>) {
        if payload.len() < 6 {
            Err(XapError::UnexpectedEndOfInput)
        } else {
            Ok(RGBLightConfig { enable: payload[0], mode: payload[1], hue: payload[2], sat: payload[3], val: payload[4], speed: payload[5] })
        }
    }
}

/// Route 0x6 0x3 0x3: the RGB light configuration.
#[derive(Debug, Default, Clone, Copy)]
pub struct RGBLightConfigGet;

impl XAPRequest for RGBLightConfigGet {
    type Response = RGBLightConfig;

    open spec fn spec_id() -> Seq<u8> {
        seq![0x6u8, 0x3u8, 0x3u8]
    }

    open spec fn spec_is_secure() -> bool {
        false
    }

    open spec fn spec_payload(&self) -> Seq<u8> {
        Seq::empty()
    }

    fn id() -> (r: &'static [u8]) {
        let r: &'static [u8] = &[0x6, 0x3, 0x3];
        assert(r@ =~= seq![0x6u8, 0x3u8, 0x3u8]);
        r
    }

    fn is_secure() -> (r: bool) {
        false
    }

    fn payload(&self) -> (r: Vec<u8>) {
        let r: Vec<u8> = Vec::new();
        assert(r@ =~= Seq::<u8>::empty());
        r
    }
}

/// Route 0x6 0x3 0x4: sets the RGB light configuration.
#[derive(Debug, Clone, Copy)]
pub struct RGBLightConfigSet {
    pub config: RGBLightConfig,
}

impl XAPRequest for RGBLightConfigSet {
    type Response = ();

    open spec fn spec_id() -> Seq<u8> {
        seq![0x6u8, 0x3u8, 0x4u8]
    }

    open spec fn spec_is_secure() -> bool {
        false
    }

    open spec fn spec_payload(&self) -> Seq<u8> {
        self.config.spec_encode()
    }

    fn id() -> (r: &'static [u8]) {
        let r: &'static [u8] = &[0x6, 0x3, 0x4];
        assert(r@ =~= seq![0x6u8, 0x3u8, 0x4u8]);
        r
    }

    fn is_secure() -> (r: bool) {
        false
    }

    fn payload(&self) -> (r: Vec<u8>) {
        self.config.encode()
    }
}

/// Route 0x6 0x3 0x5: saves the RGB light configuration.
#[derive(Debug, Default, Clone, Copy)]
pub struct RGBLightConfigSave;

impl XAPRequest for RGBLightConfigSave {
    type Response = ();

    open spec fn spec_id() -> Seq<u8> {
        seq![0x6u8, 0x3u8, 0x5u8]
    }

    open spec fn spec_is_secure() -> bool {
        false
    }

    open spec fn spec_payload(&self) -> Seq<u8> {
        Seq::empty()
    }

    fn id() -> (r: &'static [u8]) {
        let r: &'static [u8] = &[0x6, 0x3, 0x5];
        assert(r@ =~= seq![0x6u8, 0x3u8, 0x5u8]);
        r
    }

    fn is_secure() -> (r: bool) {
        false
    }

    fn payload(&self) -> (r: Vec<u8>) {
        let r: Vec<u8> = Vec::new();
        assert(r@ =~= Seq::<u8>::empty());
        r
    }
}

} // verus!

//! Routes of the lighting subsystem, addressed by route id, and of its backlight, RGB light and RGB matrix parts.
use vstd::prelude::*;

use crate::error::XapError;
use crate::protocol::XAPRequest;
use crate::request::XapResponse;

pub mod backlight;
pub mod rgblight;
pub mod rgbmatrix;
verus! {

/// Lighting parts the device has, one bit per route id.
#[derive(Debug, Clone, Copy, PartialEq, Eq, PartialOrd, Ord, Hash, Structural)]
pub struct LightingCapabilities(u32);

impl LightingCapabilities {
    pub const BACKLIGHT: u32 = 1 << 2;

    pub const RGBLIGHT: u32 = 1 << 3;

    pub const RGBMATRIX: u32 = 1 << 4;

    pub closed spec fn spec_bits(&self) -> u32 {
        self.0
    }

    pub fn from_bits_retain(bits: u32) -> (r: LightingCapabilities)
        ensures
            r.spec_bits() == bits,
    {
        LightingCapabilities(bits)
    }

    pub fn bits(&self) -> (r: u32)
        ensures
            r == self.spec_bits(),
    {
        self.0
    }

    /// Whether every bit of `flag` is set.
    pub fn contains(&self, flag: u32) -> (r: bool)
        ensures
            r == (self.spec_bits() & flag == flag),
    {
        self.0 & flag == flag
    }
}

impl XapResponse for LightingCapabilities {
    type Model = u32;

    open spec fn model(&self) -> u32 {
        self.spec_bits()
    }

    open spec fn spec_decode(payload: Seq<u8>) -> Result<u32, XapError> {
        crate::response::spec_decode_u32(payload)
    }

    fn decode(payload: &[u8]) -> (r: Result<LightingCapabilities, XapError>) {
        match crate::response::decode_u32(payload) {
            Ok(v) => Ok(LightingCapabilities(v)),
            Err(e) => Err(e),
        }
    }
}

/// Route 0x6 0x1: the lighting parts the device has.
#[derive(Debug, Default, Clone, Copy)]
pub struct LightingCapabilitiesQuery;

impl XAPRequest for LightingCapabilitiesQuery {
    type Response = LightingCapabilities;

    open spec fn spec_id() -> Seq<u8> {
        seq![0x6u8, 0x1u8]
    }

    open spec fn spec_is_secure() -> bool {
        false
    }

    open spec fn spec_payload(&self) -> Seq<u8> {
        Seq::empty()
    }

    fn id() -> (r: &'static [u8]) {
        let r: &'static [u8] = &[0x6, 0x1];
        assert(r@ =~= seq![0x6u8, 0x1u8]);
        r
    }

    fn is_secure() -> (r: bool) {
        false
    }

    fn payload(&self) -> (r: Vec<u8>) {
        let r: Vec<u8> = Vec::new();
        assert(r@ =~= Seq::<u8>::empty());
        r
    }
}

} // verus!

//! Routes of the lighting subsystem and its backlight, RGB light and RGB matrix parts.
pub mod backlight;
pub mod rgblight;
pub mod rgbmatrix;

use vstd::prelude::*;

use crate::error::XapError;
use crate::request::{XapRequest, XapResponse};

verus! {

/// capabilities
///
/// Lighting subsystem capabilities query. Each bit should be considered as a "usable" route within this subsystem.
#[derive(Debug, Default, Clone, Copy)]
pub struct LightingCapabilitiesRequest(pub ());

impl XapRequest for LightingCapabilitiesRequest {
    type Response = LightingCapabilitiesFlags;

    open spec fn spec_id() -> Seq<u8> {
        seq![0x06u8, 0x01u8]
    }

    open spec fn spec_xap_version() -> u32 {
        0x00000200
    }

    open spec fn spec_payload(&self) -> Seq<u8> {
        Seq::empty()
    }

    fn id() -> (r: &'static [u8]) {
        let r: &'static [u8] = &[0x06, 0x01];
        assert(r@ =~= seq![0x06u8, 0x01u8]);
        r
    }

    fn xap_version() -> (r: u32) {
        0x00000200
    }

    fn payload(&self) -> (r: Vec<u8>) {
        let r: Vec<u8> = Vec::new();
        assert(r@ =~= Seq::<u8>::empty());
        r
    }
}

/// Routes of the subsystem that the device supports, one bit per route id.
#[derive(Debug, Clone, Copy, PartialEq, Eq, PartialOrd, Ord, Hash, Structural)]
pub struct LightingCapabilitiesFlags(u32);

impl LightingCapabilitiesFlags {
    #[allow(non_upper_case_globals)]
    pub const Capabilities: u32 = 1 << 1;

    #[allow(non_upper_case_globals)]
    pub const Backlight: u32 = 1 << 2;

    #[allow(non_upper_case_globals)]
    pub const Rgblight: u32 = 1 << 3;

    #[allow(non_upper_case_globals)]
    pub const Rgbmatrix: u32 = 1 << 4;

    pub closed spec fn spec_bits(&self) -> u32 {
        self.0
    }

    pub fn from_bits_retain(bits: u32) -> (r: LightingCapabilitiesFlags)
        ensures
            r.spec_bits() == bits,
    {
        LightingCapabilitiesFlags(bits)
    }

    pub fn bits(&self) -> (r: u32)
        ensures
            r == self.spec_bits(),
    {
        self.0
    }

    /// Whether every bit of `flag` is set.
    pub fn contains(&self, flag: u32) -> (r: bool)
        ensures
            r == (self.spec_bits() & flag == flag),
    {
        self.0 & flag == flag
    }
}

impl XapResponse for LightingCapabilitiesFlags {
    type Model = u32;

    open spec fn model(&self) -> u32 {
        self.spec_bits()
    }

    open spec fn spec_decode(payload: Seq<u8>) -> Result<u32, XapError> {
        crate::response::spec_decode_u32(payload)
    }

    fn decode(payload: &[u8]) -> (r: Result<LightingCapabilitiesFlags, XapError>) {
        match crate::response::decode_u32(payload) {
            Ok(v) => Ok(LightingCapabilitiesFlags(v)),
            Err(e) => Err(e),
        }
    }
}

} // verus!

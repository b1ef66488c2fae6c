//! Routes of the lighting subsystem and of its backlight, RGB light and RGB matrix parts.
use vstd::prelude::*;

use crate::error::XapError;
use crate::request::{XapRequest, XapResponse};

pub mod backlight_routes;
pub mod rgblight_routes;
pub mod rgbmatrix_routes;

verus! {

/// Capabilities Query
///
/// Lighting subsystem capabilities query. Each bit should be considered as a "usable" route within this subsystem.
#[derive(Debug, Default, Clone, Copy)]
pub struct CapabilitiesQueryRequest(pub ());

impl XapRequest for CapabilitiesQueryRequest {
    type Response = CapabilitiesQueryResponseArg;

    open spec fn spec_id() -> Seq<u8> {
        seq![0x06u8, 0x01u8]
    }

    open spec fn spec_xap_version() -> u32 {
        0x00000200
    }

    open spec fn spec_payload(&self) -> Seq<u8> {
        Seq::empty()
    }

    fn id() -> (r: &'static [u8]) {
        let r: &'static [u8] = &[0x06, 0x01];
        assert(r@ =~= seq![0x06u8, 0x01u8]);
        r
    }

    fn xap_version() -> (r: u32) {
        0x00000200
    }

    fn payload(&self) -> (r: Vec<u8>) {
        let r: Vec<u8> = Vec::new();
        assert(r@ =~= Seq::<u8>::empty());
        r
    }
}

#[derive(Debug, Default, Clone, Copy, PartialEq, Eq, Structural)]
pub struct CapabilitiesQueryResponseArg(pub u32);

impl XapResponse for CapabilitiesQueryResponseArg {
    type Model = u32;

    open spec fn model(&self) -> u32 {
        self.0
    }

    open spec fn spec_decode(payload: Seq<u8>) -> Result<u32, XapError> {
        crate::response::spec_decode_u32(payload)
    }

    fn decode(payload: &[u8]) -> (r: Result<CapabilitiesQueryResponseArg, XapError>) {
        match crate::response::decode_u32(payload) {
            Ok(v) => Ok(CapabilitiesQueryResponseArg(v)),
            Err(e) => Err(e),
        }
    }
}

} // verus!

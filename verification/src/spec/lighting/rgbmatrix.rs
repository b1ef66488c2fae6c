//! Routes of the RGB matrix subsystem.
use vstd::prelude::*;

use crate::error::XapError;
use crate::request::{XapRequest, XapResponse};
use crate::spec::types::RgbMatrixConfig;

verus! {

/// capabilities
///
/// rgb matrix subsystem capabilities query. Each bit should be considered as a "usable" route within this subsystem.
#[derive(Debug, Default, Clone, Copy)]
pub struct RgbmatrixCapabilitiesRequest(pub ());

impl XapRequest for RgbmatrixCapabilitiesRequest {
    type Response = RgbmatrixCapabilitiesFlags;

    open spec fn spec_id() -> Seq<u8> {
        seq![0x06u8, 0x04u8, 0x01u8]
    }

    open spec fn spec_xap_version() -> u32 {
        0x00000300
    }

    open spec fn spec_payload(&self) -> Seq<u8> {
        Seq::empty()
    }

    fn id() -> (r: &'static [u8]) {
        let r: &'static [u8] = &[0x06, 0x04, 0x01];
        assert(r@ =~= seq![0x06u8, 0x04u8, 0x01u8]);
        r
    }

    fn xap_version() -> (r: u32) {
        0x00000300
    }

    fn payload(&self) -> (r: Vec<u8>) {
        let r: Vec<u8> = Vec::new();
        assert(r@ =~= Seq::<u8>::empty());
        r
    }
}

/// Routes of the subsystem that the device supports, one bit per route id.
#[derive(Debug, Clone, Copy, PartialEq, Eq, PartialOrd, Ord, Hash, Structural)]
pub struct RgbmatrixCapabilitiesFlags(u32);

impl RgbmatrixCapabilitiesFlags {
    #[allow(non_upper_case_globals)]
    pub const Capabilities: u32 = 1 << 1;

    #[allow(non_upper_case_globals)]
    pub const GetEnabledEffects: u32 = 1 << 2;

    #[allow(non_upper_case_globals)]
    pub const GetConfig: u32 = 1 << 3;

    #[allow(non_upper_case_globals)]
    pub const SetConfig: u32 = 1 << 4;

    #[allow(non_upper_case_globals)]
    pub const SaveConfig: u32 = 1 << 5;

    pub closed spec fn spec_bits(&self) -> u32 {
        self.0
    }

    pub fn from_bits_retain(bits: u32) -> (r: RgbmatrixCapabilitiesFlags)
        ensures
            r.spec_bits() == bits,
    {
        RgbmatrixCapabilitiesFlags(bits)
    }

    pub fn bits(&self) -> (r: u32)
        ensures
            r == self.spec_bits(),
    {
        self.0
    }

    /// Whether every bit of `flag` is set.
    pub fn contains(&self, flag: u32) -> (r: bool)
        ensures
            r == (self.spec_bits() & flag == flag),
    {
        self.0 & flag == flag
    }
}

impl XapResponse for RgbmatrixCapabilitiesFlags {
    type Model = u32;

    open spec fn model(&self) -> u32 {
        self.spec_bits()
    }

    open spec fn spec_decode(payload: Seq<u8>) -> Result<u32, XapError> {
        crate::response::spec_decode_u32(payload)
    }

    fn decode(payload: &[u8]) -> (r: Result<RgbmatrixCapabilitiesFlags, XapError>) {
        match crate::response::decode_u32(payload) {
            Ok(v) => Ok(RgbmatrixCapabilitiesFlags(v)),
            Err(e) => Err(e),
        }
    }
}

/// Get Enabled Effects
///
/// Each bit should be considered as a "usable" effect id
#[derive(Debug, Default, Clone, Copy)]
pub struct RgbmatrixGetEnabledEffectsRequest(pub ());

impl XapRequest for RgbmatrixGetEnabledEffectsRequest {
    type Response = RgbmatrixGetEnabledEffectsResponse;

    open spec fn spec_id() -> Seq<u8> {
        seq![0x06u8, 0x04u8, 0x02u8]
    }

    open spec fn spec_xap_version() -> u32 {
        0x00000300
    }

    open spec fn spec_payload(&self) -> Seq<u8> {
        Seq::empty()
    }

    fn id() -> (r: &'static [u8]) {
        let r: &'static [u8] = &[0x06, 0x04, 0x02];
        assert(r@ =~= seq![0x06u8, 0x04u8, 0x02u8]);
        r
    }

    fn xap_version() -> (r: u32) {
        0x00000300
    }

    fn payload(&self) -> (r: Vec<u8>) {
        let r: Vec<u8> = Vec::new();
        assert(r@ =~= Seq::<u8>::empty());
        r
    }
}

#[derive(Debug, Default, Clone, Copy, PartialEq, Eq, Structural)]
pub struct RgbmatrixGetEnabledEffectsResponse(pub u64);

impl XapResponse for RgbmatrixGetEnabledEffectsResponse {
    type Model = u64;

    open spec fn model(&self) -> u64 {
        self.0
    }

    open spec fn spec_decode(payload: Seq<u8>) -> Result<u64, XapError> {
        crate::response::spec_decode_u64(payload)
    }

    fn decode(payload: &[u8]) -> (r: Result<RgbmatrixGetEnabledEffectsResponse, XapError>) {
        match crate::response::decode_u64(payload) {
            Ok(v) => Ok(RgbmatrixGetEnabledEffectsResponse(v)),
            Err(e) => Err(e),
        }
    }
}

/// Get Config
///
/// Query the current config.
#[derive(Debug, Default, Clone, Copy)]
pub struct RgbmatrixGetConfigRequest(pub ());

impl XapRequest for RgbmatrixGetConfigRequest {
    type Response = RgbMatrixConfig;

    open spec fn spec_id() -> Seq<u8> {
        seq![0x06u8, 0x04u8, 0x03u8]
    }

    open spec fn spec_xap_version() -> u32 {
        0x00000300
    }

    open spec fn spec_payload(&self) -> Seq<u8> {
        Seq::empty()
    }

    fn id() -> (r: &'static [u8]) {
        let r: &'static [u8] = &[0x06, 0x04, 0x03];
        assert(r@ =~= seq![0x06u8, 0x04u8, 0x03u8]);
        r
    }

    fn xap_version() -> (r: u32) {
        0x00000300
    }

    fn payload(&self) -> (r: Vec<u8>) {
        let r: Vec<u8> = Vec::new();
        assert(r@ =~= Seq::<u8>::empty());
        r
    }
}

/// Set Config
///
/// Set the current config.
#[derive(Debug, Default, Clone, Copy)]
pub struct RgbmatrixSetConfigRequest(pub RgbMatrixConfig);

impl XapRequest for RgbmatrixSetConfigRequest {
    type Response = ();

    open spec fn spec_id() -> Seq<u8> {
        seq![0x06u8, 0x04u8, 0x04u8]
    }

    open spec fn spec_xap_version() -> u32 {
        0x00000300
    }

    open spec fn spec_payload(&self) -> Seq<u8> {
        self.0.spec_encode()
    }

    fn id() -> (r: &'static [u8]) {
        let r: &'static [u8] = &[0x06, 0x04, 0x04];
        assert(r@ =~= seq![0x06u8, 0x04u8, 0x04u8]);
        r
    }

    fn xap_version() -> (r: u32) {
        0x00000300
    }

    fn payload(&self) -> (r: Vec<u8>) {
        self.0.encode()
    }
}

/// Save Config
///
/// Save the current config.
#[derive(Debug, Default, Clone, Copy)]
pub struct RgbmatrixSaveConfigRequest(pub ());

impl XapRequest for RgbmatrixSaveConfigRequest {
    type Response = ();

    open spec fn spec_id() -> Seq<u8> {
        seq![0x06u8, 0x04u8, 0x05u8]
    }

    open spec fn spec_xap_version() -> u32 {
        0x00000300
    }

    open spec fn spec_payload(&self) -> Seq<u8> {
        Seq::empty()
    }

    fn id() -> (r: &'static [u8]) {
        let r: &'static [u8] = &[0x06, 0x04, 0x05];
        assert(r@ =~= seq![0x06u8, 0x04u8, 0x05u8]);
        r
    }

    fn xap_version() -> (r: u32) {
        0x00000300
    }

    fn payload(&self) -> (r: Vec<u8>) {
        let r: Vec<u8> = Vec::new();
        assert(r@ =~= Seq::<u8>::empty());
        r
    }
}

} // verus!

//! Routes of the backlight lighting subsystem.
use vstd::prelude::*;

use crate::error::XapError;
use crate::request::{XapRequest, XapResponse};
use crate::spec::types::BacklightConfig;

verus! {

/// capabilities
///
/// backlight subsystem capabilities query. Each bit should be considered as a "usable" route within this subsystem.
#[derive(Debug, Default, Clone, Copy)]
pub struct BacklightCapabilitiesRequest(pub ());

impl XapRequest for BacklightCapabilitiesRequest {
    type Response = BacklightCapabilitiesFlags;

    open spec fn spec_id() -> Seq<u8> {
        seq![0x06u8, 0x02u8, 0x01u8]
    }

    open spec fn spec_xap_version() -> u32 {
        0x00000300
    }

    open spec fn spec_payload(&self) -> Seq<u8> {
        Seq::empty()
    }

    fn id() -> (r: &'static [u8]) {
        let r: &'static [u8] = &[0x06, 0x02, 0x01];
        assert(r@ =~= seq![0x06u8, 0x02u8, 0x01u8]);
        r
    }

    fn xap_version() -> (r: u32) {
        0x00000300
    }

    fn payload(&self) -> (r: Vec<u8>) {
        let r: Vec<u8> = Vec::new();
        assert(r@ =~= Seq::<u8>::empty());
        r
    }
}

/// Routes of the subsystem that the device supports, one bit per route id.
#[derive(Debug, Clone, Copy, PartialEq, Eq, PartialOrd, Ord, Hash, Structural)]
pub struct BacklightCapabilitiesFlags(u32);

impl BacklightCapabilitiesFlags {
    #[allow(non_upper_case_globals)]
    pub const Capabilities: u32 = 1 << 1;

    #[allow(non_upper_case_globals)]
    pub const GetEnabledEffects: u32 = 1 << 2;

    #[allow(non_upper_case_globals)]
    pub const GetConfig: u32 = 1 << 3;

    #[allow(non_upper_case_globals)]
    pub const SetConfig: u32 = 1 << 4;

    #[allow(non_upper_case_globals)]
    pub const SaveConfig: u32 = 1 << 5;

    pub closed spec fn spec_bits(&self) -> u32 {
        self.0
    }

    pub fn from_bits_retain(bits: u32) -> (r: BacklightCapabilitiesFlags)
        ensures
            r.spec_bits() == bits,
    {
        BacklightCapabilitiesFlags(bits)
    }

    pub fn bits(&self) -> (r: u32)
        ensures
            r == self.spec_bits(),
    {
        self.0
    }

    /// Whether every bit of `flag` is set.
    pub fn contains(&self, flag: u32) -> (r: bool)
        ensures
            r == (self.spec_bits() & flag == flag),
    {
        self.0 & flag == flag
    }
}

impl XapResponse for BacklightCapabilitiesFlags {
    type Model = u32;

    open spec fn model(&self) -> u32 {
        self.spec_bits()
    }

    open spec fn spec_decode(payload: Seq<u8>) -> Result<u32, XapError> {
        crate::response::spec_decode_u32(payload)
    }

    fn decode(payload: &[u8]) -> (r: Result<BacklightCapabilitiesFlags, XapError>) {
        match crate::response::decode_u32(payload) {
            Ok(v) => Ok(BacklightCapabilitiesFlags(v)),
            Err(e) => Err(e),
        }
    }
}

/// Get Enabled Effects
///
/// Each bit should be considered as a "usable" effect id
#[derive(Debug, Default, Clone, Copy)]
pub struct BacklightGetEnabledEffectsRequest(pub ());

impl XapRequest for BacklightGetEnabledEffectsRequest {
    type Response = BacklightGetEnabledEffectsResponse;

    open spec fn spec_id() -> Seq<u8> {
        seq![0x06u8, 0x02u8, 0x02u8]
    }

    open spec fn spec_xap_version() -> u32 {
        0x00000300
    }

    open spec fn spec_payload(&self) -> Seq<u8> {
        Seq::empty()
    }

    fn id() -> (r: &'static [u8]) {
        let r: &'static [u8] = &[0x06, 0x02, 0x02];
        assert(r@ =~= seq![0x06u8, 0x02u8, 0x02u8]);
        r
    }

    fn xap_version() -> (r: u32) {
        0x00000300
    }

    fn payload(&self) -> (r: Vec<u8>) {
        let r: Vec<u8> = Vec::new();
        assert(r@ =~= Seq::<u8>::empty());
        r
    }
}

#[derive(Debug, Default, Clone, Copy, PartialEq, Eq, Structural)]
pub struct BacklightGetEnabledEffectsResponse(pub u8);

impl XapResponse for BacklightGetEnabledEffectsResponse {
    type Model = u8;

    open spec fn model(&self) -> u8 {
        self.0
    }

    open spec fn spec_decode(payload: Seq<u8>) -> Result<u8, XapError> {
        crate::response::spec_decode_u8(payload)
    }

    fn decode(payload: &[u8]) -> (r: Result<BacklightGetEnabledEffectsResponse, XapError>) {
        match crate::response::decode_u8(payload) {
            Ok(v) => Ok(BacklightGetEnabledEffectsResponse(v)),
            Err(e) => Err(e),
        }
    }
}

/// Get Config
///
/// Query the current config.
#[derive(Debug, Default, Clone, Copy)]
pub struct BacklightGetConfigRequest(pub ());

impl XapRequest for BacklightGetConfigRequest {
    type Response = BacklightConfig;

    open spec fn spec_id() -> Seq<u8> {
        seq![0x06u8, 0x02u8, 0x03u8]
    }

    open spec fn spec_xap_version() -> u32 {
        0x00000300
    }

    open spec fn spec_payload(&self) -> Seq<u8> {
        Seq::empty()
    }

    fn id() -> (r: &'static [u8]) {
        let r: &'static [u8] = &[0x06, 0x02, 0x03];
        assert(r@ =~= seq![0x06u8, 0x02u8, 0x03u8]);
        r
    }

    fn xap_version() -> (r: u32) {
        0x00000300
    }

    fn payload(&self) -> (r: Vec<u8>) {
        let r: Vec<u8> = Vec::new();
        assert(r@ =~= Seq::<u8>::empty());
        r
    }
}

/// Set Config
///
/// Set the current config.
#[derive(Debug, Default, Clone, Copy)]
pub struct BacklightSetConfigRequest(pub BacklightConfig);

impl XapRequest for BacklightSetConfigRequest {
    type Response = ();

    open spec fn spec_id() -> Seq<u8> {
        seq![0x06u8, 0x02u8, 0x04u8]
    }

    open spec fn spec_xap_version() -> u32 {
        0x00000300
    }

    open spec fn spec_payload(&self) -> Seq<u8> {
        self.0.spec_encode()
    }

    fn id() -> (r: &'static [u8]) {
        let r: &'static [u8] = &[0x06, 0x02, 0x04];
        assert(r@ =~= seq![0x06u8, 0x02u8, 0x04u8]);
        r
    }

    fn xap_version() -> (r: u32) {
        0x00000300
    }

    fn payload(&self) -> (r: Vec<u8>) {
        self.0.encode()
    }
}

/// Save Config
///
/// Save the current config.
#[derive(Debug, Default, Clone, Copy)]
pub struct BacklightSaveConfigRequest(pub ());

impl XapRequest for BacklightSaveConfigRequest {
    type Response = ();

    open spec fn spec_id() -> Seq<u8> {
        seq![0x06u8, 0x02u8, 0x05u8]
    }

    open spec fn spec_xap_version() -> u32 {
        0x00000300
    }

    open spec fn spec_payload(&self) -> Seq<u8> {
        Seq::empty()
    }

    fn id() -> (r: &'static [u8]) {
        let r: &'static [u8] = &[0x06, 0x02, 0x05];
        assert(r@ =~= seq![0x06u8, 0x02u8, 0x05u8]);
        r
    }

    fn xap_version() -> (r: u32) {
        0x00000300
    }

    fn payload(&self) -> (r: Vec<u8>) {
        let r: Vec<u8> = Vec::new();
        assert(r@ =~= Seq::<u8>::empty());
        r
    }
}

} // verus!

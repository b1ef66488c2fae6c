//! Routes of the audio subsystem.
use vstd::prelude::*;

use crate::error::XapError;
use crate::request::{XapRequest, XapResponse};
use crate::spec::types::AudioConfig;

verus! {

/// capabilities
///
/// Audio subsystem capabilities query. Each bit should be considered as a "usable" route within this subsystem.
#[derive(Debug, Default, Clone, Copy)]
pub struct AudioCapabilitiesRequest(pub ());

impl XapRequest for AudioCapabilitiesRequest {
    type Response = AudioCapabilitiesFlags;

    open spec fn spec_id() -> Seq<u8> {
        seq![0x07u8, 0x01u8]
    }

    open spec fn spec_xap_version() -> u32 {
        0x00000300
    }

    open spec fn spec_payload(&self) -> Seq<u8> {
        Seq::empty()
    }

    fn id() -> (r: &'static [u8]) {
        let r: &'static [u8] = &[0x07, 0x01];
        assert(r@ =~= seq![0x07u8, 0x01u8]);
        r
    }

    fn xap_version() -> (r: u32) {
        0x00000300
    }

    fn payload(&self) -> (r: Vec<u8>) {
        let r: Vec<u8> = Vec::new();
        assert(r@ =~= Seq::<u8>::empty());
        r
    }
}

/// Routes of the subsystem that the device supports, one bit per route id.
#[derive(Debug, Clone, Copy, PartialEq, Eq, PartialOrd, Ord, Hash, Structural)]
pub struct AudioCapabilitiesFlags(u32);

impl AudioCapabilitiesFlags {
    #[allow(non_upper_case_globals)]
    pub const Capabilities: u32 = 1 << 1;

    #[allow(non_upper_case_globals)]
    pub const GetConfig: u32 = 1 << 3;

    #[allow(non_upper_case_globals)]
    pub const SetConfig: u32 = 1 << 4;

    #[allow(non_upper_case_globals)]
    pub const SaveConfig: u32 = 1 << 5;

    pub closed spec fn spec_bits(&self) -> u32 {
        self.0
    }

    pub fn from_bits_retain(bits: u32) -> (r: AudioCapabilitiesFlags)
        ensures
            r.spec_bits() == bits,
    {
        AudioCapabilitiesFlags(bits)
    }

    pub fn bits(&self) -> (r: u32)
        ensures
            r == self.spec_bits(),
    {
        self.0
    }

    /// Whether every bit of `flag` is set.
    pub fn contains(&self, flag: u32) -> (r: bool)
        ensures
            r == (self.spec_bits() & flag == flag),
    {
        self.0 & flag == flag
    }
}

impl XapResponse for AudioCapabilitiesFlags {
    type Model = u32;

    open spec fn model(&self) -> u32 {
        self.spec_bits()
    }

    open spec fn spec_decode(payload: Seq<u8>) -> Result<u32, XapError> {
        crate::response::spec_decode_u32(payload)
    }

    fn decode(payload: &[u8]) -> (r: Result<AudioCapabilitiesFlags, XapError>) {
        match crate::response::decode_u32(payload) {
            Ok(v) => Ok(AudioCapabilitiesFlags(v)),
            Err(e) => Err(e),
        }
    }
}

/// Get Config
///
/// Query the current config.
#[derive(Debug, Default, Clone, Copy)]
pub struct AudioGetConfigRequest(pub ());

impl XapRequest for AudioGetConfigRequest {
    type Response = AudioConfig;

    open spec fn spec_id() -> Seq<u8> {
        seq![0x07u8, 0x03u8]
    }

    open spec fn spec_xap_version() -> u32 {
        0x00000300
    }

    open spec fn spec_payload(&self) -> Seq<u8> {
        Seq::empty()
    }

    fn id() -> (r: &'static [u8]) {
        let r: &'static [u8] = &[0x07, 0x03];
        assert(r@ =~= seq![0x07u8, 0x03u8]);
        r
    }

    fn xap_version() -> (r: u32) {
        0x00000300
    }

    fn payload(&self) -> (r: Vec<u8>) {
        let r: Vec<u8> = Vec::new();
        assert(r@ =~= Seq::<u8>::empty());
        r
    }
}

/// Set Config
///
/// Set the current config.
#[derive(Debug, Default, Clone, Copy)]
pub struct AudioSetConfigRequest(pub AudioConfig);

impl XapRequest for AudioSetConfigRequest {
    type Response = ();

    open spec fn spec_id() -> Seq<u8> {
        seq![0x07u8, 0x04u8]
    }

    open spec fn spec_xap_version() -> u32 {
        0x00000300
    }

    open spec fn spec_payload(&self) -> Seq<u8> {
        self.0.spec_encode()
    }

    fn id() -> (r: &'static [u8]) {
        let r: &'static [u8] = &[0x07, 0x04];
        assert(r@ =~= seq![0x07u8, 0x04u8]);
        r
    }

    fn xap_version() -> (r: u32) {
        0x00000300
    }

    fn payload(&self) -> (r: Vec<u8>) {
        self.0.encode()
    }
}

/// Save Config
///
/// Save the current config.
#[derive(Debug, Default, Clone, Copy)]
pub struct AudioSaveConfigRequest(pub ());

impl XapRequest for AudioSaveConfigRequest {
    type Response = ();

    open spec fn spec_id() -> Seq<u8> {
        seq![0x07u8, 0x05u8]
    }

    open spec fn spec_xap_version() -> u32 {
        0x00000300
    }

    open spec fn spec_payload(&self) -> Seq<u8> {
        Seq::empty()
    }

    fn id() -> (r: &'static [u8]) {
        let r: &'static [u8] = &[0x07, 0x05];
        assert(r@ =~= seq![0x07u8, 0x05u8]);
        r
    }

    fn xap_version() -> (r: u32) {
        0x00000300
    }

    fn payload(&self) -> (r: Vec<u8>) {
        let r: Vec<u8> = Vec::new();
        assert(r@ =~= Seq::<u8>::empty());
        r
    }
}

} // verus!

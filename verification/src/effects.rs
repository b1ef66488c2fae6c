//! Effect bit sets as the lighting subsystems report them, and the
//! rgblight configuration record.
use vstd::prelude::*;

use crate::error::XapError;
use crate::request::XapResponse;

verus! {

/// The indices below `n` whose bit is set in `bits`, ascending.
pub open spec fn spec_enabled_list(bits: u64, n: nat) -> Seq<u8>
    decreases n,
{
    if n == 0 {
        Seq::empty()
    } else {
        let before = spec_enabled_list(bits, (n - 1) as nat);
        if (bits >> ((n - 1) as u64)) & 1 == 1 {
            before.push((n - 1) as u8)
        } else {
            before
        }
    }
}

fn enabled_list(bits: u64, n: u64) -> (r: Vec<u8>)
    requires
        n <= 64,
    ensures
        r@ == spec_enabled_list(bits, n as nat),
{
    let mut effects: Vec<u8> = Vec::new();
    let mut i: u64 = 0;
    while i < n
        invariant
            i <= n <= 64,
            effects@ == spec_enabled_list(bits, i as nat),
        decreases n - i,
    {
        if (bits >> i) & 1 == 1 {
            effects.push(i as u8);
        }
        i = i + 1;
    }
    effects
}

/// The backlight effects a device enables, one bit per effect.
#[derive(Debug, Clone, Copy, PartialEq, Eq, Structural)]
pub struct BacklightEffects(pub u8);

impl BacklightEffects {
    /// The enabled effects, ascending.
    pub fn enabled_effect_list(&self) -> (r: Vec<u8>)
        ensures
            r@ == spec_enabled_list(self.0 as u64, 8),
    {
        enabled_list(self.0 as u64, 8)
    }
}

/// The rgblight effects a device enables, one bit per effect.
#[derive(Debug, Clone, Copy, PartialEq, Eq, Structural)]
pub struct RGBLightEffects(pub u64);

impl RGBLightEffects {
    /// The enabled effects, ascending.
    pub fn enabled_effect_list(&self) -> (r: Vec<u8>)
        ensures
            r@ == spec_enabled_list(self.0, 64),
    {
        enabled_list(self.0, 64)
    }
}

/// The rgb matrix effects a device enables, one bit per effect.
#[derive(Debug, Clone, Copy, PartialEq, Eq, Structural)]
pub struct RGBMatrixEffects(pub u64);

impl RGBMatrixEffects {
    /// The enabled effects, ascending.
    pub fn enabled_effect_list(&self) -> (r: Vec<u8>)
        ensures
            r@ == spec_enabled_list(self.0, 64),
    {
        enabled_list(self.0, 64)
    }
}

/// Every listed effect is enabled, every enabled effect below `n` is listed,
/// and the list ascends.
pub proof fn law_enabled_list_exact(bits: u64, n: nat)
    requires
        n <= 64,
    ensures
        forall|i: int| 0 <= i < spec_enabled_list(bits, n).len() ==> {
            let e = #[trigger] spec_enabled_list(bits, n)[i];
            e < n && (bits >> (e as u64)) & 1 == 1
        },
        forall|e: u8| e < n && (bits >> (e as u64)) & 1 == 1 ==> #[trigger] spec_enabled_list(
            bits,
            n,
        ).contains(e),
        forall|i: int, j: int|
            0 <= i < j < spec_enabled_list(bits, n).len() ==> #[trigger] spec_enabled_list(
                bits,
                n,
            )[i] < #[trigger] spec_enabled_list(bits, n)[j],
    decreases n,
{
    if n > 0 {
        law_enabled_list_exact(bits, (n - 1) as nat);
        let before = spec_enabled_list(bits, (n - 1) as nat);
        assert forall|e: u8| e < n && (bits >> (e as u64)) & 1 == 1 implies #[trigger] spec_enabled_list(
            bits,
            n,
        ).contains(e) by {
            if e < n - 1 {
                assert(before.contains(e));
                let k = choose|k: int| 0 <= k < before.len() && before[k] == e;
                assert(spec_enabled_list(bits, n)[k] == e);
            } else {
                assert(spec_enabled_list(bits, n).last() == e);
            }
        }
    }
}

/// The rgblight configuration: enabled, mode, hue, saturation, value and speed.
#[derive(Debug, Clone, Copy, Default, PartialEq, Eq, Structural)]
pub struct RGBConfig {
    pub enable: u8,
    pub mode: u8,
    pub hue: u8,
    pub sat: u8,
    pub val: u8,
    pub speed: u8,
}

/// What the rgblight subsystem of a device offers, as a bit set.
#[derive(Debug, Clone, Copy, PartialEq, Eq, Structural)]
pub struct RGBLightCapabilities(pub u32);

impl XapResponse for BacklightEffects {
    type Model = u8;

    open spec fn model(&self) -> u8 {
        self.0
    }

    open spec fn spec_decode(payload: Seq<u8>) -> Result<u8, XapError> {
        crate::response::spec_decode_u8(payload)
    }

    fn decode(payload: &[u8]) -> (r: Result<BacklightEffects, XapError>) {
        match crate::response::decode_u8(payload) {
            Ok(v) => Ok(BacklightEffects(v)),
            Err(e) => Err(e),
        }
    }
}

impl XapResponse for RGBLightEffects {
    type Model = u64;

    open spec fn model(&self) -> u64 {
        self.0
    }

    open spec fn spec_decode(payload: Seq<u8>) -> Result<u64, XapError> {
        crate::response::spec_decode_u64(payload)
    }

    fn decode(payload: &[u8]) -> (r: Result<RGBLightEffects, XapError>) {
        match crate::response::decode_u64(payload) {
            Ok(v) => Ok(RGBLightEffects(v)),
            Err(e) => Err(e),
        }
    }
}

impl XapResponse for RGBMatrixEffects {
    type Model = u64;

    open spec fn model(&self) -> u64 {
        self.0
    }

    open spec fn spec_decode(payload: Seq<u8>) -> Result<u64, XapError> {
        crate::response::spec_decode_u64(payload)
    }

    fn decode(payload: &[u8]) -> (r: Result<RGBMatrixEffects, XapError>) {
        match crate::response::decode_u64(payload) {
            Ok(v) => Ok(RGBMatrixEffects(v)),
            Err(e) => Err(e),
        }
    }
}

impl XapResponse for RGBLightCapabilities {
    type Model = u32;

    open spec fn model(&self) -> u32 {
        self.0
    }

    open spec fn spec_decode(payload: Seq<u8>) -> Result<u32, XapError> {
        crate::response::spec_decode_u32(payload)
    }

    fn decode(payload: &[u8]) -> (r: Result<RGBLightCapabilities, XapError>) {
        match crate::response::decode_u32(payload) {
            Ok(v) => Ok(RGBLightCapabilities(v)),
            Err(e) => Err(e),
        }
    }
}

impl RGBLightCapabilities {
    pub const CAPABILITIES: u32 = 1 << 1;

    pub const ENABLED_EFFECTS: u32 = 1 << 2;

    pub const GET_CONFIG: u32 = 1 << 3;

    pub const SET_CONFIG: u32 = 1 << 4;

    pub const SAVE_CONFIG: u32 = 1 << 5;

    pub fn bits(&self) -> (r: u32)
        ensures
            r == self.0,
    {
        self.0
    }

    /// Whether every bit of `flag` is set.
    pub fn contains(&self, flag: u32) -> (r: bool)
        ensures
            r == (self.0 & flag == flag),
    {
        self.0 & flag == flag
    }
}

} // verus!

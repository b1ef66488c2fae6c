//! Probing a newly connected device: which requests to send, in which
//! order, and what the answers make of the device description.
//!
//! The probe decides and records; whoever owns the HID connection sends each
//! request it asks for and hands back the payload of the answer.
use std::io::Read;

use vstd::prelude::*;

use crate::aggregation::{
    Config, KeymapInfo, LightingCapabilities, LightingInfo, Matrix, QmkInfo, RemapInfo,
    XapDeviceInfo, XapInfo, effects_view, spec_label_lt,
};
use crate::constants::lighting::{spec_effect_map, LightingEffects};
use crate::constants::XapConstants;
use crate::error::XapError;
use crate::request::{XapRequest, XapResponse};
use crate::response::UTF8String;
use crate::sort::spec_sorted_by;
use crate::device::Keymap;
use crate::device::KeymapKey;
use crate::spec::keymap::{
    KeymapCapabilitiesFlags, KeymapCapabilitiesRequest, KeymapGetKeycodeArg,
    KeymapGetKeycodeResponse, KeymapGetLayerCountRequest, KeymapGetLayerCountResponse,
};
use crate::spec::lighting::backlight::{
    BacklightCapabilitiesFlags, BacklightCapabilitiesRequest, BacklightGetEnabledEffectsRequest,
    BacklightGetEnabledEffectsResponse,
};
use crate::spec::lighting::rgblight::{
    RgblightCapabilitiesFlags, RgblightCapabilitiesRequest, RgblightGetEnabledEffectsRequest,
    RgblightGetEnabledEffectsResponse,
};
use crate::spec::lighting::rgbmatrix::{
    RgbmatrixCapabilitiesFlags, RgbmatrixCapabilitiesRequest, RgbmatrixGetEnabledEffectsRequest,
    RgbmatrixGetEnabledEffectsResponse,
};
use crate::spec::lighting::{LightingCapabilitiesFlags, LightingCapabilitiesRequest};
use crate::spec::qmk::{
    QmkBoardIdentifiersRequest, QmkBoardIdentifiersResponse, QmkBoardManufacturerRequest,
    QmkCapabilitiesFlags, QmkCapabilitiesRequest, QmkConfigBlobChunkRequest,
    QmkConfigBlobChunkResponse, QmkConfigBlobLengthRequest, QmkConfigBlobLengthResponse,
    QmkHardwareIdentifierRequest, QmkHardwareIdentifierResponse, QmkProductNameRequest,
    QmkVersionRequest, QmkVersionResponse,
};
use crate::spec::remapping::{
    RemappingCapabilitiesFlags, RemappingCapabilitiesRequest, RemappingGetLayerCountRequest,
    RemappingGetLayerCountResponse,
};
use crate::spec::xap::{
    XapEnabledSubsystemCapabilitiesFlags, XapEnabledSubsystemCapabilitiesRequest,
    XapVersionRequest, XapVersionResponse,
};
use crate::text::{
    chars_to_string, decimal_string, push_decimal, spec_decimal, spec_trim_matches, str_chars,
    trim_matches,
};

verus! {

/// The request a probe waits for the answer to.
#[derive(Debug, Clone, Copy, PartialEq, Eq, Structural)]
pub enum ProbeStep {
    Subsystems,
    XapVersion,
    QmkCapabilities,
    BoardIdentifiers,
    BoardManufacturer,
    ProductName,
    ConfigBlobLength,
    ConfigBlobChunk,
    /// The configuration blob is complete and waits to be decompressed and read.
    ParseConfig,
    HardwareIdentifier,
    QmkVersion,
    KeymapCapabilities,
    KeymapLayerCount,
    RemappingCapabilities,
    RemappingLayerCount,
    LightingCapabilities,
    BacklightCapabilities,
    BacklightEffects,
    RgblightCapabilities,
    RgblightEffects,
    RgbmatrixCapabilities,
    RgbmatrixEffects,
    Done,
}

/// A request to send: route id, the XAP version that introduced the route, and arguments.
#[derive(Debug, Clone)]
pub struct ProbeQuery {
    pub id: Vec<u8>,
    pub xap_version: u32,
    pub payload: Vec<u8>,
}

/// The plain value of a request to send.
pub open spec fn spec_query_of<T: XapRequest>(req: T) -> (Seq<u8>, u32, Seq<u8>) {
    (T::spec_id(), T::spec_xap_version(), req.spec_payload())
}

fn query_of<T: XapRequest>(req: &T) -> (r: ProbeQuery)
    ensures
        (r.id@, r.xap_version, r.payload@) == spec_query_of(*req),
{
    ProbeQuery { id: vstd::slice::slice_to_vec(T::id()), xap_version: T::xap_version(), payload: req.payload() }
}

/// Whether every bit of `flag` is set in `bits`.
pub open spec fn spec_has(bits: u32, flag: u32) -> bool {
    bits & flag == flag
}

/// The step after the QMK part: the keymap subsystem when the device has it.
pub open spec fn spec_after_qmk(subsystems: u32) -> ProbeStep {
    if spec_has(subsystems, XapEnabledSubsystemCapabilitiesFlags::Keymap) {
        ProbeStep::KeymapCapabilities
    } else {
        spec_after_keymap(subsystems)
    }
}

/// The step after the keymap part: the remapping subsystem when the device has it.
pub open spec fn spec_after_keymap(subsystems: u32) -> ProbeStep {
    if spec_has(subsystems, XapEnabledSubsystemCapabilitiesFlags::Remapping) {
        ProbeStep::RemappingCapabilities
    } else {
        spec_after_remapping(subsystems)
    }
}

/// The step after the remapping part: the lighting subsystem when the device has it.
pub open spec fn spec_after_remapping(subsystems: u32) -> ProbeStep {
    if spec_has(subsystems, XapEnabledSubsystemCapabilitiesFlags::Lighting) {
        ProbeStep::LightingCapabilities
    } else {
        ProbeStep::Done
    }
}

/// The step after the lighting capabilities: backlight when present.
pub open spec fn spec_after_lighting(lighting: u32) -> ProbeStep {
    if spec_has(lighting, LightingCapabilitiesFlags::Backlight) {
        ProbeStep::BacklightCapabilities
    } else {
        spec_after_backlight(lighting)
    }
}

/// The step after backlight: rgblight when present.
pub open spec fn spec_after_backlight(lighting: u32) -> ProbeStep {
    if spec_has(lighting, LightingCapabilitiesFlags::Rgblight) {
        ProbeStep::RgblightCapabilities
    } else {
        spec_after_rgblight(lighting)
    }
}

/// The step after rgblight: rgbmatrix when present.
pub open spec fn spec_after_rgblight(lighting: u32) -> ProbeStep {
    if spec_has(lighting, LightingCapabilitiesFlags::Rgbmatrix) {
        ProbeStep::RgbmatrixCapabilities
    } else {
        ProbeStep::Done
    }
}

/// The plain state of a probe.
pub struct ProbeView {
    pub step: ProbeStep,
    pub subsystems: u32,
    pub xap_version: u32,
    pub qmk_caps: u32,
    pub board_ids: QmkBoardIdentifiersResponse,
    pub manufacturer: Seq<char>,
    pub product_name: Seq<char>,
    pub config_size: u16,
    pub config_offset: u16,
    pub config_data: Seq<u8>,
    pub config: Config,
    pub hardware_id: Seq<u32>,
    pub qmk_version: u32,
    pub keymap_caps: u32,
    pub keymap_layers: Option<u8>,
    pub remap_caps: u32,
    pub remap_layers: Option<u8>,
    pub lighting_caps: u32,
    pub backlight_caps: u32,
    pub backlight_effects: u8,
    pub rgblight_caps: u32,
    pub rgblight_effects: u64,
    pub rgbmatrix_caps: u32,
    pub rgbmatrix_effects: u64,
}

/// The request the probe asks for in its current step; none while the
/// configuration waits to be read and when the probe is done.
pub open spec fn spec_probe_query(v: ProbeView) -> Option<(Seq<u8>, u32, Seq<u8>)> {
    match v.step {
        ProbeStep::Subsystems => Some(spec_query_of(XapEnabledSubsystemCapabilitiesRequest(()))),
        ProbeStep::XapVersion => Some(spec_query_of(XapVersionRequest(()))),
        ProbeStep::QmkCapabilities => Some(spec_query_of(QmkCapabilitiesRequest(()))),
        ProbeStep::BoardIdentifiers => Some(spec_query_of(QmkBoardIdentifiersRequest(()))),
        ProbeStep::BoardManufacturer => Some(spec_query_of(QmkBoardManufacturerRequest(()))),
        ProbeStep::ProductName => Some(spec_query_of(QmkProductNameRequest(()))),
        ProbeStep::ConfigBlobLength => Some(spec_query_of(QmkConfigBlobLengthRequest(()))),
        ProbeStep::ConfigBlobChunk => Some(
            spec_query_of(QmkConfigBlobChunkRequest(v.config_offset)),
        ),
        ProbeStep::ParseConfig => None,
        ProbeStep::HardwareIdentifier => Some(spec_query_of(QmkHardwareIdentifierRequest(()))),
        ProbeStep::QmkVersion => Some(spec_query_of(QmkVersionRequest(()))),
        ProbeStep::KeymapCapabilities => Some(spec_query_of(KeymapCapabilitiesRequest(()))),
        ProbeStep::KeymapLayerCount => Some(spec_query_of(KeymapGetLayerCountRequest(()))),
        ProbeStep::RemappingCapabilities => Some(spec_query_of(RemappingCapabilitiesRequest(()))),
        ProbeStep::RemappingLayerCount => Some(spec_query_of(RemappingGetLayerCountRequest(()))),
        ProbeStep::LightingCapabilities => Some(spec_query_of(LightingCapabilitiesRequest(()))),
        ProbeStep::BacklightCapabilities => Some(spec_query_of(BacklightCapabilitiesRequest(()))),
        ProbeStep::BacklightEffects => Some(spec_query_of(BacklightGetEnabledEffectsRequest(()))),
        ProbeStep::RgblightCapabilities => Some(spec_query_of(RgblightCapabilitiesRequest(()))),
        ProbeStep::RgblightEffects => Some(spec_query_of(RgblightGetEnabledEffectsRequest(()))),
        ProbeStep::RgbmatrixCapabilities => Some(spec_query_of(RgbmatrixCapabilitiesRequest(()))),
        ProbeStep::RgbmatrixEffects => Some(spec_query_of(RgbmatrixGetEnabledEffectsRequest(()))),
        ProbeStep::Done => None,
    }
}

/// Recording an answer that decoded to `r` with `f`, or failing with its error.
pub open spec fn spec_record<A>(r: Result<A, XapError>, f: spec_fn(A) -> ProbeView) -> Result<
    ProbeView,
    XapError,
> {
    match r {
        Ok(a) => Ok(f(a)),
        Err(e) => Err(e),
    }
}

/// What the answer `payload` to the current request makes of the probe.
pub open spec fn spec_accept(v: ProbeView, payload: Seq<u8>) -> Result<ProbeView, XapError> {
    match v.step {
        ProbeStep::Subsystems => spec_record(
            XapEnabledSubsystemCapabilitiesFlags::spec_decode(payload),
            |x: u32| ProbeView { subsystems: x, step: ProbeStep::XapVersion, ..v },
        ),
        ProbeStep::XapVersion => spec_record(
            XapVersionResponse::spec_decode(payload),
            |x: u32| ProbeView { xap_version: x, step: ProbeStep::QmkCapabilities, ..v },
        ),
        ProbeStep::QmkCapabilities => spec_record(
            QmkCapabilitiesFlags::spec_decode(payload),
            |x: u32| ProbeView { qmk_caps: x, step: ProbeStep::BoardIdentifiers, ..v },
        ),
        ProbeStep::BoardIdentifiers => spec_record(
            QmkBoardIdentifiersResponse::spec_decode(payload),
            |x: QmkBoardIdentifiersResponse|
                ProbeView { board_ids: x, step: ProbeStep::BoardManufacturer, ..v },
        ),
        ProbeStep::BoardManufacturer => spec_record(
            UTF8String::spec_decode(payload),
            |x: Seq<char>|
                ProbeView {
                    manufacturer: spec_trim_matches(x, '"'),
                    step: ProbeStep::ProductName,
                    ..v
                },
        ),
        ProbeStep::ProductName => spec_record(
            UTF8String::spec_decode(payload),
            |x: Seq<char>|
                ProbeView {
                    product_name: spec_trim_matches(x, '"'),
                    step: ProbeStep::ConfigBlobLength,
                    ..v
                },
        ),
        ProbeStep::ConfigBlobLength => spec_record(
            QmkConfigBlobLengthResponse::spec_decode(payload),
            |x: u16|
                ProbeView {
                    config_size: x,
                    config_offset: 0,
                    config_data: Seq::empty(),
                    step: if x > 0 {
                        ProbeStep::ConfigBlobChunk
                    } else {
                        ProbeStep::ParseConfig
                    },
                    ..v
                },
        ),
        ProbeStep::ConfigBlobChunk => spec_record(
            QmkConfigBlobChunkResponse::spec_decode(payload),
            |x: Seq<u8>|
                ProbeView {
                    config_data: v.config_data + x,
                    config_offset: (v.config_offset + 32) as u16,
                    step: if v.config_offset + 32 < v.config_size {
                        ProbeStep::ConfigBlobChunk
                    } else {
                        ProbeStep::ParseConfig
                    },
                    ..v
                },
        ),
        ProbeStep::HardwareIdentifier => spec_record(
            QmkHardwareIdentifierResponse::spec_decode(payload),
            |x: Seq<u32>| ProbeView { hardware_id: x, step: ProbeStep::QmkVersion, ..v },
        ),
        ProbeStep::QmkVersion => spec_record(
            QmkVersionResponse::spec_decode(payload),
            |x: u32| ProbeView { qmk_version: x, step: spec_after_qmk(v.subsystems), ..v },
        ),
        ProbeStep::KeymapCapabilities => spec_record(
            KeymapCapabilitiesFlags::spec_decode(payload),
            |x: u32|
                ProbeView {
                    keymap_caps: x,
                    step: if spec_has(x, KeymapCapabilitiesFlags::GetLayerCount) {
                        ProbeStep::KeymapLayerCount
                    } else {
                        spec_after_keymap(v.subsystems)
                    },
                    ..v
                },
        ),
        ProbeStep::KeymapLayerCount => spec_record(
            KeymapGetLayerCountResponse::spec_decode(payload),
            |x: u8|
                ProbeView {
                    keymap_layers: Some(x),
                    step: spec_after_keymap(v.subsystems),
                    ..v
                },
        ),
        ProbeStep::RemappingCapabilities => spec_record(
            RemappingCapabilitiesFlags::spec_decode(payload),
            |x: u32|
                ProbeView {
                    remap_caps: x,
                    step: if spec_has(x, RemappingCapabilitiesFlags::GetLayerCount) {
                        ProbeStep::RemappingLayerCount
                    } else {
                        spec_after_remapping(v.subsystems)
                    },
                    ..v
                },
        ),
        ProbeStep::RemappingLayerCount => spec_record(
            RemappingGetLayerCountResponse::spec_decode(payload),
            |x: u8|
                ProbeView {
                    remap_layers: Some(x),
                    step: spec_after_remapping(v.subsystems),
                    ..v
                },
        ),
        ProbeStep::LightingCapabilities => spec_record(
            LightingCapabilitiesFlags::spec_decode(payload),
            |x: u32| ProbeView { lighting_caps: x, step: spec_after_lighting(x), ..v },
        ),
        ProbeStep::BacklightCapabilities => spec_record(
            BacklightCapabilitiesFlags::spec_decode(payload),
            |x: u32|
                ProbeView {
                    backlight_caps: x,
                    step: if spec_has(x, BacklightCapabilitiesFlags::GetEnabledEffects) {
                        ProbeStep::BacklightEffects
                    } else {
                        spec_after_backlight(v.lighting_caps)
                    },
                    ..v
                },
        ),
        ProbeStep::BacklightEffects => spec_record(
            BacklightGetEnabledEffectsResponse::spec_decode(payload),
            |x: u8|
                ProbeView {
                    backlight_effects: x,
                    step: spec_after_backlight(v.lighting_caps),
                    ..v
                },
        ),
        ProbeStep::RgblightCapabilities => spec_record(
            RgblightCapabilitiesFlags::spec_decode(payload),
            |x: u32|
                ProbeView {
                    rgblight_caps: x,
                    step: if spec_has(x, RgblightCapabilitiesFlags::GetEnabledEffects) {
                        ProbeStep::RgblightEffects
                    } else {
                        spec_after_rgblight(v.lighting_caps)
                    },
                    ..v
                },
        ),
        ProbeStep::RgblightEffects => spec_record(
            RgblightGetEnabledEffectsResponse::spec_decode(payload),
            |x: u64|
                ProbeView {
                    rgblight_effects: x,
                    step: spec_after_rgblight(v.lighting_caps),
                    ..v
                },
        ),
        ProbeStep::RgbmatrixCapabilities => spec_record(
            RgbmatrixCapabilitiesFlags::spec_decode(payload),
            |x: u32|
                ProbeView {
                    rgbmatrix_caps: x,
                    step: if spec_has(x, RgbmatrixCapabilitiesFlags::GetEnabledEffects) {
                        ProbeStep::RgbmatrixEffects
                    } else {
                        ProbeStep::Done
                    },
                    ..v
                },
        ),
        ProbeStep::RgbmatrixEffects => spec_record(
            RgbmatrixGetEnabledEffectsResponse::spec_decode(payload),
            |x: u64| ProbeView { rgbmatrix_effects: x, step: ProbeStep::Done, ..v },
        ),
        _ => Ok(v),
    }
}

/// The answers of a device, collected request by request.
#[derive(Debug)]
pub struct DeviceProbe {
    step: ProbeStep,
    subsystems: u32,
    xap_version: u32,
    qmk_caps: u32,
    board_ids: QmkBoardIdentifiersResponse,
    manufacturer: Vec<char>,
    product_name: Vec<char>,
    config_size: u16,
    config_offset: u16,
    config_data: Vec<u8>,
    config: Config,
    hardware_id: [u32; 4],
    qmk_version: u32,
    keymap_caps: u32,
    keymap_layers: Option<u8>,
    remap_caps: u32,
    remap_layers: Option<u8>,
    lighting_caps: u32,
    backlight_caps: u32,
    backlight_effects: u8,
    rgblight_caps: u32,
    rgblight_effects: u64,
    rgbmatrix_caps: u32,
    rgbmatrix_effects: u64,
}

impl View for DeviceProbe {
    type V = ProbeView;

    closed spec fn view(&self) -> ProbeView {
        ProbeView {
            step: self.step,
            subsystems: self.subsystems,
            xap_version: self.xap_version,
            qmk_caps: self.qmk_caps,
            board_ids: self.board_ids,
            manufacturer: self.manufacturer@,
            product_name: self.product_name@,
            config_size: self.config_size,
            config_offset: self.config_offset,
            config_data: self.config_data@,
            config: self.config,
            hardware_id: self.hardware_id@,
            qmk_version: self.qmk_version,
            keymap_caps: self.keymap_caps,
            keymap_layers: self.keymap_layers,
            remap_caps: self.remap_caps,
            remap_layers: self.remap_layers,
            lighting_caps: self.lighting_caps,
            backlight_caps: self.backlight_caps,
            backlight_effects: self.backlight_effects,
            rgblight_caps: self.rgblight_caps,
            rgblight_effects: self.rgblight_effects,
            rgbmatrix_caps: self.rgbmatrix_caps,
            rgbmatrix_effects: self.rgbmatrix_effects,
        }
    }
}

/// The configuration blob collected so far covers every chunk asked for,
/// and all of the blob once the probe reaches its reading.
pub open spec fn spec_wf(v: ProbeView) -> bool {
    &&& v.config_data.len() == v.config_offset
    &&& v.step == ProbeStep::ConfigBlobChunk ==> v.config_offset < v.config_size
    &&& v.step == ProbeStep::ParseConfig ==> v.config_offset >= v.config_size
}

/// The subsystem parts are asked for in order, each exactly when the
/// enabled subsystems name it: after the QMK part the probe goes on to the
/// keymap, remapping or lighting part or the end, whichever comes first
/// among those present; and once the keymap or remapping part is finished
/// it goes on to the first of the later parts that is present.
pub proof fn law_subsystem_parts_in_order(v: ProbeView, payload: Seq<u8>)
    requires
        spec_accept(v, payload) is Ok,
    ensures
        ({
            let w = spec_accept(v, payload)->Ok_0;
            let subs = v.subsystems;
            let keymap = spec_has(subs, XapEnabledSubsystemCapabilitiesFlags::Keymap);
            let remapping = spec_has(subs, XapEnabledSubsystemCapabilitiesFlags::Remapping);
            let lighting = spec_has(subs, XapEnabledSubsystemCapabilitiesFlags::Lighting);
            &&& v.step != ProbeStep::Subsystems ==> w.subsystems == v.subsystems
            &&& v.step == ProbeStep::QmkVersion ==> {
                &&& keymap ==> w.step == ProbeStep::KeymapCapabilities
                &&& !keymap && remapping ==> w.step == ProbeStep::RemappingCapabilities
                &&& !keymap && !remapping && lighting ==> w.step == ProbeStep::LightingCapabilities
                &&& !keymap && !remapping && !lighting ==> w.step == ProbeStep::Done
            }
            &&& (v.step == ProbeStep::KeymapCapabilities || v.step == ProbeStep::KeymapLayerCount)
                && w.step != ProbeStep::KeymapLayerCount ==> {
                &&& remapping ==> w.step == ProbeStep::RemappingCapabilities
                &&& !remapping && lighting ==> w.step == ProbeStep::LightingCapabilities
                &&& !remapping && !lighting ==> w.step == ProbeStep::Done
            }
            &&& (v.step == ProbeStep::RemappingCapabilities || v.step
                == ProbeStep::RemappingLayerCount) && w.step != ProbeStep::RemappingLayerCount ==> {
                &&& lighting ==> w.step == ProbeStep::LightingCapabilities
                &&& !lighting ==> w.step == ProbeStep::Done
            }
        }),
{
}

/// Within each part, the follow-up question is asked exactly when the
/// part's capabilities allow it: the layer count when they hold
/// `GetLayerCount`, the enabled effects when they hold `GetEnabledEffects`;
/// and each capabilities answer is recorded as decoded.
pub proof fn law_follow_up_questions(v: ProbeView, payload: Seq<u8>)
    requires
        spec_accept(v, payload) is Ok,
    ensures
        ({
            let w = spec_accept(v, payload)->Ok_0;
            &&& v.step == ProbeStep::KeymapCapabilities ==> {
                &&& KeymapCapabilitiesFlags::spec_decode(payload) == Ok::<u32, XapError>(w.keymap_caps)
                &&& (w.step == ProbeStep::KeymapLayerCount <==> spec_has(
                    w.keymap_caps,
                    KeymapCapabilitiesFlags::GetLayerCount,
                ))
            }
            &&& v.step == ProbeStep::RemappingCapabilities ==> {
                &&& RemappingCapabilitiesFlags::spec_decode(payload) == Ok::<u32, XapError>(w.remap_caps)
                &&& (w.step == ProbeStep::RemappingLayerCount <==> spec_has(
                    w.remap_caps,
                    RemappingCapabilitiesFlags::GetLayerCount,
                ))
            }
            &&& v.step == ProbeStep::BacklightCapabilities ==> {
                &&& BacklightCapabilitiesFlags::spec_decode(payload) == Ok::<u32, XapError>(
                    w.backlight_caps,
                )
                &&& (w.step == ProbeStep::BacklightEffects <==> spec_has(
                    w.backlight_caps,
                    BacklightCapabilitiesFlags::GetEnabledEffects,
                ))
            }
            &&& v.step == ProbeStep::RgblightCapabilities ==> {
                &&& RgblightCapabilitiesFlags::spec_decode(payload) == Ok::<u32, XapError>(w.rgblight_caps)
                &&& (w.step == ProbeStep::RgblightEffects <==> spec_has(
                    w.rgblight_caps,
                    RgblightCapabilitiesFlags::GetEnabledEffects,
                ))
            }
            &&& v.step == ProbeStep::RgbmatrixCapabilities ==> {
                &&& RgbmatrixCapabilitiesFlags::spec_decode(payload) == Ok::<u32, XapError>(
                    w.rgbmatrix_caps,
                )
                &&& (w.step == ProbeStep::RgbmatrixEffects <==> spec_has(
                    w.rgbmatrix_caps,
                    RgbmatrixCapabilitiesFlags::GetEnabledEffects,
                ))
            }
            &&& v.step == ProbeStep::BacklightEffects ==> BacklightGetEnabledEffectsResponse::spec_decode(
                payload,
            ) == Ok::<u8, XapError>(w.backlight_effects)
            &&& v.step == ProbeStep::RgblightEffects ==> RgblightGetEnabledEffectsResponse::spec_decode(
                payload,
            ) == Ok::<u64, XapError>(w.rgblight_effects)
            &&& v.step == ProbeStep::RgbmatrixEffects ==> RgbmatrixGetEnabledEffectsResponse::spec_decode(
                payload,
            ) == Ok::<u64, XapError>(w.rgbmatrix_effects)
        }),
{
}

/// The lighting parts are asked for in order, each exactly when the
/// lighting capabilities name it: after the lighting capabilities the probe
/// goes on to backlight, rgblight, rgbmatrix or the end, whichever comes
/// first among those present; and once a part is finished (its capabilities
/// answered without enabled effects to read, or its enabled effects
/// answered) the probe goes on to the first of the later parts that is
/// present, whatever the earlier parts answered.
pub proof fn law_lighting_parts_in_order(v: ProbeView, payload: Seq<u8>)
    requires
        spec_accept(v, payload) is Ok,
    ensures
        ({
            let w = spec_accept(v, payload)->Ok_0;
            let caps = w.lighting_caps;
            let backlight = spec_has(caps, LightingCapabilitiesFlags::Backlight);
            let rgblight = spec_has(caps, LightingCapabilitiesFlags::Rgblight);
            let rgbmatrix = spec_has(caps, LightingCapabilitiesFlags::Rgbmatrix);
            &&& v.step == ProbeStep::LightingCapabilities ==> {
                &&& backlight ==> w.step == ProbeStep::BacklightCapabilities
                &&& !backlight && rgblight ==> w.step == ProbeStep::RgblightCapabilities
                &&& !backlight && !rgblight && rgbmatrix ==> w.step == ProbeStep::RgbmatrixCapabilities
                &&& !backlight && !rgblight && !rgbmatrix ==> w.step == ProbeStep::Done
            }
            &&& (v.step == ProbeStep::BacklightCapabilities || v.step == ProbeStep::BacklightEffects)
                && w.step != ProbeStep::BacklightEffects ==> {
                &&& caps == v.lighting_caps
                &&& rgblight ==> w.step == ProbeStep::RgblightCapabilities
                &&& !rgblight && rgbmatrix ==> w.step == ProbeStep::RgbmatrixCapabilities
                &&& !rgblight && !rgbmatrix ==> w.step == ProbeStep::Done
            }
            &&& (v.step == ProbeStep::RgblightCapabilities || v.step == ProbeStep::RgblightEffects)
                && w.step != ProbeStep::RgblightEffects ==> {
                &&& caps == v.lighting_caps
                &&& rgbmatrix ==> w.step == ProbeStep::RgbmatrixCapabilities
                &&& !rgbmatrix ==> w.step == ProbeStep::Done
            }
            &&& (v.step == ProbeStep::RgbmatrixCapabilities || v.step == ProbeStep::RgbmatrixEffects)
                && w.step != ProbeStep::RgbmatrixEffects ==> w.step == ProbeStep::Done
        }),
{
}

/// Whether accepting `payload` now would overflow the offset into the
/// configuration blob, which the probe cannot do.
pub open spec fn spec_accept_overflows(v: ProbeView, payload: Seq<u8>) -> bool {
    v.step == ProbeStep::ConfigBlobChunk && v.config_offset + 32 > 0xFFFF
        && QmkConfigBlobChunkResponse::spec_decode(payload) is Ok
}

/// The capabilities of one lighting subsystem: the enabled effects the
/// table knows, sorted by label, and three capability flags.
pub open spec fn spec_capabilities_match(
    c: LightingCapabilities,
    table: LightingEffects,
    effects: u64,
    caps: u32,
    get_config: u32,
    set_config: u32,
    save_config: u32,
) -> bool {
    &&& effects_view(c.effects@) == spec_sorted_by(
        spec_effect_map(table.effects@, effects, 64),
        spec_label_lt(),
    )
    &&& c.get_config_enabled == spec_has(caps, get_config)
    &&& c.set_config_enabled == spec_has(caps, set_config)
    &&& c.save_config_enabled == spec_has(caps, save_config)
}

/// The description a completed probe gives of the device.
/// The effect tables that a description reads, one for each lighting
/// subsystem that the device has, have codes below 64.
pub open spec fn spec_tables_fit(v: ProbeView, constants: XapConstants) -> bool {
    spec_has(v.subsystems, XapEnabledSubsystemCapabilitiesFlags::Lighting) ==> {
        &&& spec_has(v.lighting_caps, LightingCapabilitiesFlags::Backlight)
            ==> constants.led_matrix_modes.spec_codes_fit()
        &&& spec_has(v.lighting_caps, LightingCapabilitiesFlags::Rgblight)
            ==> constants.rgblight_modes.spec_codes_fit()
        &&& spec_has(v.lighting_caps, LightingCapabilitiesFlags::Rgbmatrix)
            ==> constants.rgb_matrix_modes.spec_codes_fit()
    }
}

pub open spec fn spec_info_matches(info: XapDeviceInfo, v: ProbeView, constants: XapConstants) -> bool {
    &&& info.xap.version == v.xap_version
    &&& info.qmk.version@ == spec_decimal(v.qmk_version as nat)
    &&& info.qmk.board_ids == v.board_ids
    &&& info.qmk.manufacturer@ == v.manufacturer
    &&& info.qmk.product_name@ == v.product_name
    &&& info.qmk.hardware_id@ == spec_decimal(v.hardware_id[0] as nat) + spec_decimal(
        v.hardware_id[1] as nat,
    ) + spec_decimal(v.hardware_id[2] as nat) + spec_decimal(v.hardware_id[3] as nat)
    &&& info.qmk.jump_to_bootloader_enabled == spec_has(
        v.qmk_caps,
        QmkCapabilitiesFlags::JumpToBootloader,
    )
    &&& info.qmk.eeprom_reset_enabled == spec_has(v.qmk_caps, QmkCapabilitiesFlags::ReinitializeEeprom)
    &&& info.keymap == if spec_has(v.subsystems, XapEnabledSubsystemCapabilitiesFlags::Keymap) {
        Some(
            KeymapInfo {
                matrix: v.config.matrix_size,
                layer_count: v.keymap_layers,
                get_keycode_enabled: spec_has(v.keymap_caps, KeymapCapabilitiesFlags::GetKeycode),
                get_encoder_keycode_enabled: spec_has(
                    v.keymap_caps,
                    KeymapCapabilitiesFlags::GetEncoderKeycode,
                ),
            },
        )
    } else {
        None
    }
    &&& info.remap == if spec_has(v.subsystems, XapEnabledSubsystemCapabilitiesFlags::Remapping) {
        Some(
            RemapInfo {
                layer_count: v.remap_layers,
                set_keycode_enabled: spec_has(v.remap_caps, RemappingCapabilitiesFlags::SetKeycode),
                set_encoder_keycode_enabled: spec_has(
                    v.remap_caps,
                    RemappingCapabilitiesFlags::SetEncoderKeycode,
                ),
            },
        )
    } else {
        None
    }
    &&& (info.lighting is Some <==> spec_has(
        v.subsystems,
        XapEnabledSubsystemCapabilitiesFlags::Lighting,
    ))
    &&& info.lighting matches Some(l) ==> {
        &&& (l.backlight is Some <==> spec_has(v.lighting_caps, LightingCapabilitiesFlags::Backlight))
        &&& (l.backlight matches Some(c) ==> spec_capabilities_match(
            c,
            constants.led_matrix_modes,
            v.backlight_effects as u64,
            v.backlight_caps,
            BacklightCapabilitiesFlags::GetConfig,
            BacklightCapabilitiesFlags::SetConfig,
            BacklightCapabilitiesFlags::SaveConfig,
        ))
        &&& (l.rgblight is Some <==> spec_has(v.lighting_caps, LightingCapabilitiesFlags::Rgblight))
        &&& (l.rgblight matches Some(c) ==> spec_capabilities_match(
            c,
            constants.rgblight_modes,
            v.rgblight_effects,
            v.rgblight_caps,
            RgblightCapabilitiesFlags::GetConfig,
            RgblightCapabilitiesFlags::SetConfig,
            RgblightCapabilitiesFlags::SaveConfig,
        ))
        &&& (l.rgbmatrix is Some <==> spec_has(v.lighting_caps, LightingCapabilitiesFlags::Rgbmatrix))
        &&& (l.rgbmatrix matches Some(c) ==> spec_capabilities_match(
            c,
            constants.rgb_matrix_modes,
            v.rgbmatrix_effects,
            v.rgbmatrix_caps,
            RgbmatrixCapabilitiesFlags::GetConfig,
            RgbmatrixCapabilitiesFlags::SetConfig,
            RgbmatrixCapabilitiesFlags::SaveConfig,
        ))
    }
}

/// The name given to decompressing gzip data and reading it as text.
pub uninterp spec fn spec_gunzip_text(data: Seq<u8>) -> Option<Seq<char>>;

/// Decompresses gzip data that holds UTF-8 text.
///
/// Calls `flate2::read::GzDecoder` and `read_to_string`; the result depends
/// on the bytes alone and is named, `None` when the data is not gzip or not
/// text.
#[verifier::external_body]
fn gunzip_text(data: &[u8]) -> (r: Option<String>)
    ensures
        match spec_gunzip_text(data@) {
            Some(t) => r matches Some(s) && s@ == t,
            None => r is None,
        },
{
    let mut decoder = flate2::read::GzDecoder::new(data);
    let mut text = String::new();
    match decoder.read_to_string(&mut text) {
        Ok(_) => Some(text),
        Err(_) => None,
    }
}

fn append_chunk(data: &mut Vec<u8>, chunk: &[u8; 32])
    ensures
        final(data)@ == old(data)@ + chunk@,
{
    let mut i: usize = 0;
    while i < 32
        invariant
            i <= 32,
            chunk@.len() == 32,
            data@ == old(data)@ + chunk@.subrange(0, i as int),
        decreases 32 - i,
    {
        data.push(chunk[i]);
        i = i + 1;
        assert(data@ =~= old(data)@ + chunk@.subrange(0, i as int));
    }
    assert(chunk@.subrange(0, 32) =~= chunk@);
}

impl DeviceProbe {
    /// A probe that starts with the subsystems the device enables.
    pub fn new() -> (r: DeviceProbe)
        ensures
            r@.step == ProbeStep::Subsystems,
            r@.keymap_layers is None,
            r@.remap_layers is None,
            r@.backlight_effects == 0,
            r@.rgblight_effects == 0,
            r@.rgbmatrix_effects == 0,
            r@.config_data.len() == 0,
            r@.config == (Config { matrix_size: Matrix { cols: 0, rows: 0 } }),
            spec_wf(r@),
    {
        DeviceProbe {
            step: ProbeStep::Subsystems,
            subsystems: 0,
            xap_version: 0,
            qmk_caps: 0,
            board_ids: QmkBoardIdentifiersResponse {
                vendor_id: 0,
                product_id: 0,
                product_version: 0,
                qmk_unique_identifier: 0,
            },
            manufacturer: Vec::new(),
            product_name: Vec::new(),
            config_size: 0,
            config_offset: 0,
            config_data: Vec::new(),
            config: Config { matrix_size: Matrix { cols: 0, rows: 0 } },
            hardware_id: [0u32; 4],
            qmk_version: 0,
            keymap_caps: 0,
            keymap_layers: None,
            remap_caps: 0,
            remap_layers: None,
            lighting_caps: 0,
            backlight_caps: 0,
            backlight_effects: 0,
            rgblight_caps: 0,
            rgblight_effects: 0,
            rgbmatrix_caps: 0,
            rgbmatrix_effects: 0,
        }
    }

    pub fn step(&self) -> (r: ProbeStep)
        ensures
            r == self@.step,
    {
        self.step
    }

    /// The request to send next.
    pub fn request(&self) -> (r: Option<ProbeQuery>)
        ensures
            match spec_probe_query(self@) {
                Some(q) => r matches Some(x) && (x.id@, x.xap_version, x.payload@) == q,
                None => r is None,
            },
    {
        match self.step {
            ProbeStep::Subsystems => Some(query_of(&XapEnabledSubsystemCapabilitiesRequest(()))),
            ProbeStep::XapVersion => Some(query_of(&XapVersionRequest(()))),
            ProbeStep::QmkCapabilities => Some(query_of(&QmkCapabilitiesRequest(()))),
            ProbeStep::BoardIdentifiers => Some(query_of(&QmkBoardIdentifiersRequest(()))),
            ProbeStep::BoardManufacturer => Some(query_of(&QmkBoardManufacturerRequest(()))),
            ProbeStep::ProductName => Some(query_of(&QmkProductNameRequest(()))),
            ProbeStep::ConfigBlobLength => Some(query_of(&QmkConfigBlobLengthRequest(()))),
            ProbeStep::ConfigBlobChunk => Some(
                query_of(&QmkConfigBlobChunkRequest(self.config_offset)),
            ),
            ProbeStep::ParseConfig => None,
            ProbeStep::HardwareIdentifier => Some(query_of(&QmkHardwareIdentifierRequest(()))),
            ProbeStep::QmkVersion => Some(query_of(&QmkVersionRequest(()))),
            ProbeStep::KeymapCapabilities => Some(query_of(&KeymapCapabilitiesRequest(()))),
            ProbeStep::KeymapLayerCount => Some(query_of(&KeymapGetLayerCountRequest(()))),
            ProbeStep::RemappingCapabilities => Some(query_of(&RemappingCapabilitiesRequest(()))),
            ProbeStep::RemappingLayerCount => Some(query_of(&RemappingGetLayerCountRequest(()))),
            ProbeStep::LightingCapabilities => Some(query_of(&LightingCapabilitiesRequest(()))),
            ProbeStep::BacklightCapabilities => Some(query_of(&BacklightCapabilitiesRequest(()))),
            ProbeStep::BacklightEffects => Some(
                query_of(&BacklightGetEnabledEffectsRequest(())),
            ),
            ProbeStep::RgblightCapabilities => Some(query_of(&RgblightCapabilitiesRequest(()))),
            ProbeStep::RgblightEffects => Some(query_of(&RgblightGetEnabledEffectsRequest(()))),
            ProbeStep::RgbmatrixCapabilities => Some(query_of(&RgbmatrixCapabilitiesRequest(()))),
            ProbeStep::RgbmatrixEffects => Some(
                query_of(&RgbmatrixGetEnabledEffectsRequest(())),
            ),
            ProbeStep::Done => None,
        }
    }

    /// Whether accepting `payload` now would overflow the offset into the
    /// configuration blob.
    pub fn accept_overflows(&self, payload: &[u8]) -> (r: bool)
        ensures
            r == spec_accept_overflows(self@, payload@),
    {
        self.step == ProbeStep::ConfigBlobChunk && self.config_offset > 0xFFFF - 32 && payload.len()
            >= 32
    }

    /// Records the answer to the current request and moves on, as
    /// `spec_accept` says; an answer that cannot be read leaves the probe as
    /// it was and gives the error.
    #[verifier::rlimit(60)]
    pub fn accept(&mut self, payload: &[u8]) -> (r: Result<(), XapError>)
        requires
            !spec_accept_overflows(old(self)@, payload@),
            spec_wf(old(self)@),
        ensures
            spec_wf(final(self)@),
            match spec_accept(old(self)@, payload@) {
                Ok(v) => r is Ok && final(self)@ == v,
                Err(e) => r == Err::<(), XapError>(e) && final(self)@ == old(self)@,
            },
    {
        match self.step {
            ProbeStep::Subsystems => match XapEnabledSubsystemCapabilitiesFlags::decode(payload) {
                Ok(x) => {
                    self.subsystems = x.bits();
                    self.step = ProbeStep::XapVersion;
                },
                Err(e) => return Err(e),
            },
            ProbeStep::XapVersion => match XapVersionResponse::decode(payload) {
                Ok(x) => {
                    self.xap_version = x.0;
                    self.step = ProbeStep::QmkCapabilities;
                },
                Err(e) => return Err(e),
            },
            ProbeStep::QmkCapabilities => match QmkCapabilitiesFlags::decode(payload) {
                Ok(x) => {
                    self.qmk_caps = x.bits();
                    self.step = ProbeStep::BoardIdentifiers;
                },
                Err(e) => return Err(e),
            },
            ProbeStep::BoardIdentifiers => match QmkBoardIdentifiersResponse::decode(payload) {
                Ok(x) => {
                    self.board_ids = x;
                    self.step = ProbeStep::BoardManufacturer;
                },
                Err(e) => return Err(e),
            },
            ProbeStep::BoardManufacturer => match UTF8String::decode(payload) {
                Ok(x) => {
                    let chars = str_chars(x.0.as_str());
                    self.manufacturer = trim_matches(&chars, '"');
                    self.step = ProbeStep::ProductName;
                },
                Err(e) => return Err(e),
            },
            ProbeStep::ProductName => match UTF8String::decode(payload) {
                Ok(x) => {
                    let chars = str_chars(x.0.as_str());
                    self.product_name = trim_matches(&chars, '"');
                    self.step = ProbeStep::ConfigBlobLength;
                },
                Err(e) => return Err(e),
            },
            ProbeStep::ConfigBlobLength => match QmkConfigBlobLengthResponse::decode(payload) {
                Ok(x) => {
                    self.config_size = x.0;
                    self.config_offset = 0;
                    self.config_data = Vec::new();
                    self.step = if x.0 > 0 {
                        ProbeStep::ConfigBlobChunk
                    } else {
                        ProbeStep::ParseConfig
                    };
                },
                Err(e) => return Err(e),
            },
            ProbeStep::ConfigBlobChunk => match QmkConfigBlobChunkResponse::decode(payload) {
                Ok(x) => {
                    assert(QmkConfigBlobChunkResponse::spec_decode(payload@) is Ok);
                    append_chunk(&mut self.config_data, &x.0);
                    let more = (self.config_offset as u32) + 32 < (self.config_size as u32);
                    self.config_offset = self.config_offset + 32;
                    self.step = if more {
                        ProbeStep::ConfigBlobChunk
                    } else {
                        ProbeStep::ParseConfig
                    };
                },
                Err(e) => return Err(e),
            },
            ProbeStep::HardwareIdentifier => match QmkHardwareIdentifierResponse::decode(payload) {
                Ok(x) => {
                    self.hardware_id = x.0;
                    self.step = ProbeStep::QmkVersion;
                },
                Err(e) => return Err(e),
            },
            ProbeStep::QmkVersion => match QmkVersionResponse::decode(payload) {
                Ok(x) => {
                    self.qmk_version = x.0;
                    self.step = self.after_qmk();
                },
                Err(e) => return Err(e),
            },
            ProbeStep::KeymapCapabilities => match KeymapCapabilitiesFlags::decode(payload) {
                Ok(x) => {
                    self.keymap_caps = x.bits();
                    self.step = if x.contains(KeymapCapabilitiesFlags::GetLayerCount) {
                        ProbeStep::KeymapLayerCount
                    } else {
                        self.after_keymap()
                    };
                },
                Err(e) => return Err(e),
            },
            ProbeStep::KeymapLayerCount => match KeymapGetLayerCountResponse::decode(payload) {
                Ok(x) => {
                    self.keymap_layers = Some(x.0);
                    self.step = self.after_keymap();
                },
                Err(e) => return Err(e),
            },
            ProbeStep::RemappingCapabilities => match RemappingCapabilitiesFlags::decode(payload) {
                Ok(x) => {
                    self.remap_caps = x.bits();
                    self.step = if x.contains(RemappingCapabilitiesFlags::GetLayerCount) {
                        ProbeStep::RemappingLayerCount
                    } else {
                        self.after_remapping()
                    };
                },
                Err(e) => return Err(e),
            },
            ProbeStep::RemappingLayerCount => match RemappingGetLayerCountResponse::decode(
                payload,
            ) {
                Ok(x) => {
                    self.remap_layers = Some(x.0);
                    self.step = self.after_remapping();
                },
                Err(e) => return Err(e),
            },
            ProbeStep::LightingCapabilities => match LightingCapabilitiesFlags::decode(payload) {
                Ok(x) => {
                    self.lighting_caps = x.bits();
                    self.step = Self::after_lighting(x.bits());
                },
                Err(e) => return Err(e),
            },
            ProbeStep::BacklightCapabilities => match BacklightCapabilitiesFlags::decode(payload) {
                Ok(x) => {
                    self.backlight_caps = x.bits();
                    self.step = if x.contains(BacklightCapabilitiesFlags::GetEnabledEffects) {
                        ProbeStep::BacklightEffects
                    } else {
                        Self::after_backlight(self.lighting_caps)
                    };
                },
                Err(e) => return Err(e),
            },
            ProbeStep::BacklightEffects => match BacklightGetEnabledEffectsResponse::decode(
                payload,
            ) {
                Ok(x) => {
                    self.backlight_effects = x.0;
                    self.step = Self::after_backlight(self.lighting_caps);
                },
                Err(e) => return Err(e),
            },
            ProbeStep::RgblightCapabilities => match RgblightCapabilitiesFlags::decode(payload) {
                Ok(x) => {
                    self.rgblight_caps = x.bits();
                    self.step = if x.contains(RgblightCapabilitiesFlags::GetEnabledEffects) {
                        ProbeStep::RgblightEffects
                    } else {
                        Self::after_rgblight(self.lighting_caps)
                    };
                },
                Err(e) => return Err(e),
            },
            ProbeStep::RgblightEffects => match RgblightGetEnabledEffectsResponse::decode(payload) {
                Ok(x) => {
                    self.rgblight_effects = x.0;
                    self.step = Self::after_rgblight(self.lighting_caps);
                },
                Err(e) => return Err(e),
            },
            ProbeStep::RgbmatrixCapabilities => match RgbmatrixCapabilitiesFlags::decode(payload) {
                Ok(x) => {
                    self.rgbmatrix_caps = x.bits();
                    self.step = if x.contains(RgbmatrixCapabilitiesFlags::GetEnabledEffects) {
                        ProbeStep::RgbmatrixEffects
                    } else {
                        ProbeStep::Done
                    };
                },
                Err(e) => return Err(e),
            },
            ProbeStep::RgbmatrixEffects => match RgbmatrixGetEnabledEffectsResponse::decode(
                payload,
            ) {
                Ok(x) => {
                    self.rgbmatrix_effects = x.0;
                    self.step = ProbeStep::Done;
                },
                Err(e) => return Err(e),
            },
            _ => {},
        }
        Ok(())
    }

    /// The compressed configuration blob: the collected chunks cut to the
    /// announced size.
    pub open spec fn spec_config_blob(v: ProbeView) -> Seq<u8> {
        v.config_data.subrange(0, v.config_size as int)
    }

    /// The text of the configuration, once the blob is complete.
    pub fn config_text(&self) -> (r: Result<String, XapError>)
        requires
            self@.step == ProbeStep::ParseConfig,
            spec_wf(self@),
        ensures
            match spec_gunzip_text(Self::spec_config_blob(self@)) {
                Some(t) => r matches Ok(s) && s@ == t,
                None => r == Err::<String, XapError>(XapError::Decompression),
            },
    {
        let size = self.config_size as usize;
        let mut blob: Vec<u8> = Vec::new();
        let mut i: usize = 0;
        while i < size
            invariant
                i <= size,
                size == self.config_size,
                size <= self.config_data@.len(),
                blob@ == self.config_data@.subrange(0, i as int),
            decreases size - i,
        {
            blob.push(self.config_data[i]);
            i = i + 1;
            assert(blob@ =~= self.config_data@.subrange(0, i as int));
        }
        match gunzip_text(blob.as_slice()) {
            Some(text) => Ok(text),
            None => Err(XapError::Decompression),
        }
    }

    /// Records the configuration read from the blob and moves on to the
    /// hardware identifier.
    pub fn accept_config(&mut self, config: Config)
        requires
            old(self)@.step == ProbeStep::ParseConfig,
            spec_wf(old(self)@),
        ensures
            final(self)@ == (ProbeView {
                config,
                step: ProbeStep::HardwareIdentifier,
                ..old(self)@
            }),
            spec_wf(final(self)@),
    {
        self.config = config;
        self.step = ProbeStep::HardwareIdentifier;
    }

    /// The configuration read from the blob.
    pub fn config(&self) -> (r: Config)
        ensures
            r == self@.config,
    {
        self.config
    }

    fn lighting_capabilities(
        table: &LightingEffects,
        effects: u64,
        caps: u32,
        get_config: u32,
        set_config: u32,
        save_config: u32,
    ) -> (r: LightingCapabilities)
        requires
            table.spec_codes_fit(),
        ensures
            spec_capabilities_match(r, *table, effects, caps, get_config, set_config, save_config),
    {
        LightingCapabilities::new(
            table.get_effect_map(effects),
            caps & get_config == get_config,
            caps & set_config == set_config,
            caps & save_config == save_config,
        )
    }

    /// Every effect table that the description will read has codes below 64:
    /// the one of each lighting subsystem that the device has.
    pub fn tables_fit(&self, constants: &XapConstants) -> (r: bool)
        ensures
            r == spec_tables_fit(self@, *constants),
    {
        if self.subsystems & XapEnabledSubsystemCapabilitiesFlags::Lighting
            == XapEnabledSubsystemCapabilitiesFlags::Lighting {
            let backlight = !(self.lighting_caps & LightingCapabilitiesFlags::Backlight
                == LightingCapabilitiesFlags::Backlight) || constants.led_matrix_modes.codes_fit();
            let rgblight = !(self.lighting_caps & LightingCapabilitiesFlags::Rgblight
                == LightingCapabilitiesFlags::Rgblight) || constants.rgblight_modes.codes_fit();
            let rgbmatrix = !(self.lighting_caps & LightingCapabilitiesFlags::Rgbmatrix
                == LightingCapabilitiesFlags::Rgbmatrix) || constants.rgb_matrix_modes.codes_fit();
            backlight && rgblight && rgbmatrix
        } else {
            true
        }
    }

    /// The description of the device that the answers give.
    pub fn finish(&self, constants: &XapConstants) -> (r: XapDeviceInfo)
        requires
            self@.step == ProbeStep::Done,
            spec_tables_fit(self@, *constants),
        ensures
            spec_info_matches(r, self@, *constants),
    {
        let mut hardware_id: Vec<char> = Vec::new();
        push_decimal(&mut hardware_id, self.hardware_id[0] as u64);
        push_decimal(&mut hardware_id, self.hardware_id[1] as u64);
        push_decimal(&mut hardware_id, self.hardware_id[2] as u64);
        push_decimal(&mut hardware_id, self.hardware_id[3] as u64);
        let qmk = QmkInfo {
            version: decimal_string(self.qmk_version as u64),
            board_ids: self.board_ids,
            manufacturer: chars_to_string(self.manufacturer.clone()),
            product_name: chars_to_string(self.product_name.clone()),
            hardware_id: chars_to_string(hardware_id),
            jump_to_bootloader_enabled: self.qmk_caps & QmkCapabilitiesFlags::JumpToBootloader
                == QmkCapabilitiesFlags::JumpToBootloader,
            eeprom_reset_enabled: self.qmk_caps & QmkCapabilitiesFlags::ReinitializeEeprom
                == QmkCapabilitiesFlags::ReinitializeEeprom,
        };
        let keymap = if self.subsystems & XapEnabledSubsystemCapabilitiesFlags::Keymap
            == XapEnabledSubsystemCapabilitiesFlags::Keymap {
            Some(
                KeymapInfo {
                    matrix: self.config.matrix_size,
                    layer_count: self.keymap_layers,
                    get_keycode_enabled: self.keymap_caps & KeymapCapabilitiesFlags::GetKeycode
                        == KeymapCapabilitiesFlags::GetKeycode,
                    get_encoder_keycode_enabled: self.keymap_caps
                        & KeymapCapabilitiesFlags::GetEncoderKeycode
                        == KeymapCapabilitiesFlags::GetEncoderKeycode,
                },
            )
        } else {
            None
        };
        let remap = if self.subsystems & XapEnabledSubsystemCapabilitiesFlags::Remapping
            == XapEnabledSubsystemCapabilitiesFlags::Remapping {
            Some(
                RemapInfo {
                    layer_count: self.remap_layers,
                    set_keycode_enabled: self.remap_caps & RemappingCapabilitiesFlags::SetKeycode
                        == RemappingCapabilitiesFlags::SetKeycode,
                    set_encoder_keycode_enabled: self.remap_caps
                        & RemappingCapabilitiesFlags::SetEncoderKeycode
                        == RemappingCapabilitiesFlags::SetEncoderKeycode,
                },
            )
        } else {
            None
        };
        let lighting = if self.subsystems & XapEnabledSubsystemCapabilitiesFlags::Lighting
            == XapEnabledSubsystemCapabilitiesFlags::Lighting {
            let backlight = if self.lighting_caps & LightingCapabilitiesFlags::Backlight
                == LightingCapabilitiesFlags::Backlight {
                Some(
                    Self::lighting_capabilities(
                        &constants.led_matrix_modes,
                        self.backlight_effects as u64,
                        self.backlight_caps,
                        BacklightCapabilitiesFlags::GetConfig,
                        BacklightCapabilitiesFlags::SetConfig,
                        BacklightCapabilitiesFlags::SaveConfig,
                    ),
                )
            } else {
                None
            };
            let rgblight = if self.lighting_caps & LightingCapabilitiesFlags::Rgblight
                == LightingCapabilitiesFlags::Rgblight {
                Some(
                    Self::lighting_capabilities(
                        &constants.rgblight_modes,
                        self.rgblight_effects,
                        self.rgblight_caps,
                        RgblightCapabilitiesFlags::GetConfig,
                        RgblightCapabilitiesFlags::SetConfig,
                        RgblightCapabilitiesFlags::SaveConfig,
                    ),
                )
            } else {
                None
            };
            let rgbmatrix = if self.lighting_caps & LightingCapabilitiesFlags::Rgbmatrix
                == LightingCapabilitiesFlags::Rgbmatrix {
                Some(
                    Self::lighting_capabilities(
                        &constants.rgb_matrix_modes,
                        self.rgbmatrix_effects,
                        self.rgbmatrix_caps,
                        RgbmatrixCapabilitiesFlags::GetConfig,
                        RgbmatrixCapabilitiesFlags::SetConfig,
                        RgbmatrixCapabilitiesFlags::SaveConfig,
                    ),
                )
            } else {
                None
            };
            Some(LightingInfo { backlight, rgblight, rgbmatrix })
        } else {
            None
        };
        let r = XapDeviceInfo {
            xap: XapInfo { version: self.xap_version },
            qmk,
            keymap,
            remap,
            lighting,
        };
        assert(r.qmk.hardware_id@ =~= spec_decimal(self.hardware_id@[0] as nat) + spec_decimal(
            self.hardware_id@[1] as nat,
        ) + spec_decimal(self.hardware_id@[2] as nat) + spec_decimal(self.hardware_id@[3] as nat));
        r
    }

    fn after_qmk(&self) -> (r: ProbeStep)
        ensures
            r == spec_after_qmk(self.subsystems),
    {
        if self.subsystems & XapEnabledSubsystemCapabilitiesFlags::Keymap
            == XapEnabledSubsystemCapabilitiesFlags::Keymap {
            ProbeStep::KeymapCapabilities
        } else {
            self.after_keymap()
        }
    }

    fn after_keymap(&self) -> (r: ProbeStep)
        ensures
            r == spec_after_keymap(self.subsystems),
    {
        if self.subsystems & XapEnabledSubsystemCapabilitiesFlags::Remapping
            == XapEnabledSubsystemCapabilitiesFlags::Remapping {
            ProbeStep::RemappingCapabilities
        } else {
            self.after_remapping()
        }
    }

    fn after_remapping(&self) -> (r: ProbeStep)
        ensures
            r == spec_after_remapping(self.subsystems),
    {
        if self.subsystems & XapEnabledSubsystemCapabilitiesFlags::Lighting
            == XapEnabledSubsystemCapabilitiesFlags::Lighting {
            ProbeStep::LightingCapabilities
        } else {
            ProbeStep::Done
        }
    }

    fn after_lighting(lighting: u32) -> (r: ProbeStep)
        ensures
            r == spec_after_lighting(lighting),
    {
        if lighting & LightingCapabilitiesFlags::Backlight == LightingCapabilitiesFlags::Backlight {
            ProbeStep::BacklightCapabilities
        } else {
            Self::after_backlight(lighting)
        }
    }

    fn after_backlight(lighting: u32) -> (r: ProbeStep)
        ensures
            r == spec_after_backlight(lighting),
    {
        if lighting & LightingCapabilitiesFlags::Rgblight == LightingCapabilitiesFlags::Rgblight {
            ProbeStep::RgblightCapabilities
        } else {
            Self::after_rgblight(lighting)
        }
    }

    fn after_rgblight(lighting: u32) -> (r: ProbeStep)
        ensures
            r == spec_after_rgblight(lighting),
    {
        if lighting & LightingCapabilitiesFlags::Rgbmatrix == LightingCapabilitiesFlags::Rgbmatrix {
            ProbeStep::RgbmatrixCapabilities
        } else {
            ProbeStep::Done
        }
    }
}

/// The number of keys a keymap probe asks for: layers times rows times columns.
pub open spec fn spec_key_count(layers: u8, rows: u8, cols: u8) -> int {
    layers as int * rows as int * cols as int
}

/// The position of key `k` in asking order: layer by layer, row by row,
/// column by column.
pub open spec fn spec_key_index(rows: u8, cols: u8, l: int, r: int, c: int) -> int {
    (l * rows as int + r) * cols as int + c
}

/// Reading the keymap of a device: one keycode request per key.
#[derive(Debug)]
pub struct KeymapProbe {
    layers: u8,
    rows: u8,
    cols: u8,
    codes: Vec<u16>,
}

/// The plain state of a keymap probe: its size and the codes read so far.
pub struct KeymapProbeView {
    pub layers: u8,
    pub rows: u8,
    pub cols: u8,
    pub codes: Seq<u16>,
}

impl View for KeymapProbe {
    type V = KeymapProbeView;

    closed spec fn view(&self) -> KeymapProbeView {
        KeymapProbeView { layers: self.layers, rows: self.rows, cols: self.cols, codes: self.codes@ }
    }
}

proof fn lemma_index_bounds(layers: u8, rows: u8, cols: u8, l: int, r: int, c: int)
    requires
        0 <= l < layers,
        0 <= r < rows,
        0 <= c < cols,
    ensures
        0 <= spec_key_index(rows, cols, l, r, c) < spec_key_count(layers, rows, cols),
{
    assert(0 <= spec_key_index(rows, cols, l, r, c) < spec_key_count(layers, rows, cols))
        by (nonlinear_arith)
        requires
            0 <= l < layers,
            0 <= r < rows,
            0 <= c < cols,
    ;
}

fn key_count(layers: u8, rows: u8, cols: u8) -> (r: u64)
    ensures
        r == spec_key_count(layers, rows, cols),
{
    let a = layers as u64;
    let b = rows as u64;
    let c = cols as u64;
    assert(a * b <= 65025 && a * b * c <= 16581375) by (nonlinear_arith)
        requires
            a <= 255,
            b <= 255,
            c <= 255,
    ;
    a * b * c
}

fn key_index(rows: u8, cols: u8, l: u8, r: u8, c: u8) -> (i: u64)
    ensures
        i == spec_key_index(rows, cols, l as int, r as int, c as int),
{
    let a = l as u64;
    let b = rows as u64;
    let x = r as u64;
    let d = cols as u64;
    let y = c as u64;
    assert(a * b + x <= 65280 && (a * b + x) * d + y <= 16646655) by (nonlinear_arith)
        requires
            a <= 255,
            b <= 255,
            x <= 255,
            d <= 255,
            y <= 255,
    ;
    (a * b + x) * d + y
}

impl KeymapProbe {
    /// A keymap probe for the layers the keymap subsystem reports (none
    /// without it) and the matrix size of the configuration.
    pub fn new(info: &XapDeviceInfo, config: &Config) -> (r: KeymapProbe)
        ensures
            r@.layers == (match info.keymap {
                Some(k) => match k.layer_count {
                    Some(n) => n,
                    None => 0u8,
                },
                None => 0u8,
            }),
            r@.rows == config.matrix_size.rows,
            r@.cols == config.matrix_size.cols,
            r@.codes.len() == 0,
    {
        let layers = match &info.keymap {
            Some(k) => match k.layer_count {
                Some(n) => n,
                None => 0,
            },
            None => 0,
        };
        KeymapProbe {
            layers,
            rows: config.matrix_size.rows,
            cols: config.matrix_size.cols,
            codes: Vec::new(),
        }
    }

    /// Whether every key has been read.
    pub fn is_done(&self) -> (r: bool)
        ensures
            r == (self@.codes.len() >= spec_key_count(self@.layers, self@.rows, self@.cols)),
    {
        (self.codes.len() as u64) >= key_count(self.layers, self.rows, self.cols)
    }

    /// The position of the next key to read.
    pub fn next_position(&self) -> (r: Option<KeymapGetKeycodeArg>)
        ensures
            match r {
                Some(p) => {
                    &&& self@.codes.len() < spec_key_count(self@.layers, self@.rows, self@.cols)
                    &&& p.layer < self@.layers && p.row < self@.rows && p.column < self@.cols
                    &&& spec_key_index(self@.rows, self@.cols, p.layer as int, p.row as int, p.column as int)
                        == self@.codes.len()
                },
                None => self@.codes.len() >= spec_key_count(self@.layers, self@.rows, self@.cols),
            },
    {
        if self.is_done() {
            return None;
        }
        let k = self.codes.len() as u64;
        let rows = self.rows as u64;
        let cols = self.cols as u64;
        let layers = self.layers as u64;
        assert(k < layers * rows * cols);
        assert(rows * cols > 0 && rows * cols <= 65025) by (nonlinear_arith)
            requires
                k < layers * rows * cols,
                rows <= 255,
                cols <= 255,
                layers <= 255,
        ;
        let plane = rows * cols;
        let layer = k / plane;
        let rem = k % plane;
        let row = rem / cols;
        let column = rem % cols;
        assert(layer < layers && row < rows && column < cols
            && (layer * rows + row) * cols + column == k) by (nonlinear_arith)
            requires
                plane == rows * cols,
                plane > 0,
                layer == k / plane,
                rem == k % plane,
                row == rem / cols,
                column == rem % cols,
                k < layers * rows * cols,
                cols > 0,
        ;
        Some(KeymapGetKeycodeArg { layer: layer as u8, row: row as u8, column: column as u8 })
    }

    /// Records the answer to the keycode request for the next key.
    pub fn accept(&mut self, payload: &[u8]) -> (r: Result<(), XapError>)
        ensures
            final(self)@.layers == old(self)@.layers,
            final(self)@.rows == old(self)@.rows,
            final(self)@.cols == old(self)@.cols,
            match KeymapGetKeycodeResponse::spec_decode(payload@) {
                Ok(code) => r is Ok && final(self)@.codes == old(self)@.codes.push(code),
                Err(e) => r == Err::<(), XapError>(e) && final(self)@.codes == old(self)@.codes,
            },
    {
        match KeymapGetKeycodeResponse::decode(payload) {
            Ok(code) => {
                self.codes.push(code.0);
                Ok(())
            },
            Err(e) => Err(e),
        }
    }

    /// The keymap of the codes read: at each position the keycode the
    /// tables give for the code read there.
    pub fn finish(&self, constants: &XapConstants) -> (r: Keymap)
        requires
            self@.codes.len() >= spec_key_count(self@.layers, self@.rows, self@.cols),
        ensures
            r.0@.len() == self@.layers,
            forall|l: int| 0 <= l < self@.layers ==> (#[trigger] r.0@[l])@.len() == self@.rows,
            forall|l: int, row: int|
                0 <= l < self@.layers && 0 <= row < self@.rows ==> (#[trigger] r.0@[l]@[row])@.len()
                    == self@.cols,
            forall|l: int, row: int, c: int|
                0 <= l < self@.layers && 0 <= row < self@.rows && 0 <= c < self@.cols ==> {
                    &&& (#[trigger] r.spec_key(l, row, c)).code@ == constants.spec_keycode(
                        self@.codes[spec_key_index(self@.rows, self@.cols, l, row, c)],
                    )
                    &&& r.spec_key(l, row, c).position == KeymapGetKeycodeArg {
                        layer: l as u8,
                        row: row as u8,
                        column: c as u8,
                    }
                },
    {
        let mut layers: Vec<Vec<Vec<KeymapKey>>> = Vec::new();
        let mut l: u8 = 0;
        while l < self.layers
            invariant
                l <= self.layers,
                self@.codes.len() >= spec_key_count(self@.layers, self@.rows, self@.cols),
                layers@.len() == l,
                forall|x: int| 0 <= x < l ==> (#[trigger] layers@[x])@.len() == self.rows,
                forall|x: int, y: int|
                    0 <= x < l && 0 <= y < self.rows ==> (#[trigger] layers@[x]@[y])@.len()
                        == self.cols,
                forall|x: int, y: int, z: int|
                    0 <= x < l && 0 <= y < self.rows && 0 <= z < self.cols ==> {
                        &&& (#[trigger] layers@[x]@[y]@[z]).code@ == constants.spec_keycode(
                            self@.codes[spec_key_index(self.rows, self.cols, x, y, z)],
                        )
                        &&& layers@[x]@[y]@[z].position == KeymapGetKeycodeArg {
                            layer: x as u8,
                            row: y as u8,
                            column: z as u8,
                        }
                    },
            decreases self.layers - l,
        {
            let mut rows: Vec<Vec<KeymapKey>> = Vec::new();
            let mut row: u8 = 0;
            while row < self.rows
                invariant
                    l < self.layers,
                    row <= self.rows,
                    self@.codes.len() >= spec_key_count(self@.layers, self@.rows, self@.cols),
                    rows@.len() == row,
                    forall|y: int| 0 <= y < row ==> (#[trigger] rows@[y])@.len() == self.cols,
                    forall|y: int, z: int|
                        0 <= y < row && 0 <= z < self.cols ==> {
                            &&& (#[trigger] rows@[y]@[z]).code@ == constants.spec_keycode(
                                self@.codes[spec_key_index(self.rows, self.cols, l as int, y, z)],
                            )
                            &&& rows@[y]@[z].position == KeymapGetKeycodeArg {
                                layer: l,
                                row: y as u8,
                                column: z as u8,
                            }
                        },
                decreases self.rows - row,
            {
                let mut keys: Vec<KeymapKey> = Vec::new();
                let mut c: u8 = 0;
                while c < self.cols
                    invariant
                        l < self.layers,
                        row < self.rows,
                        c <= self.cols,
                        self@.codes.len() >= spec_key_count(self@.layers, self@.rows, self@.cols),
                        keys@.len() == c,
                        forall|z: int|
                            0 <= z < c ==> {
                                &&& (#[trigger] keys@[z]).code@ == constants.spec_keycode(
                                    self@.codes[spec_key_index(
                                        self.rows,
                                        self.cols,
                                        l as int,
                                        row as int,
                                        z,
                                    )],
                                )
                                &&& keys@[z].position == KeymapGetKeycodeArg {
                                    layer: l,
                                    row,
                                    column: z as u8,
                                }
                            },
                    decreases self.cols - c,
                {
                    proof {
                        lemma_index_bounds(self.layers, self.rows, self.cols, l as int, row as int, c as int);
                    }
                    let wide = key_index(self.rows, self.cols, l, row, c);
                    let n = self.codes.len();
                    assert(wide < n);
                    let index = wide as usize;
                    assert(index == wide);
                    let code = self.codes[index];
                    keys.push(
                        KeymapKey {
                            code: constants.get_keycode(code),
                            position: KeymapGetKeycodeArg { layer: l, row, column: c },
                        },
                    );
                    c = c + 1;
                }
                rows.push(keys);
                row = row + 1;
            }
            layers.push(rows);
            l = l + 1;
        }
        Keymap(layers)
    }
}

} // verus!

use qmk_xap::effects::{BacklightEffects, RGBLightEffects, RGBMatrixEffects};

#[test]
fn enabled_effects_ascend() {
    assert_eq!(BacklightEffects(0b1000_0101).enabled_effect_list(), vec![0, 2, 7]);
    assert_eq!(BacklightEffects(0).enabled_effect_list(), Vec::<u8>::new());
    assert_eq!(
        RGBLightEffects((1 << 63) | (1 << 1)).enabled_effect_list(),
        vec![1, 63]
    );
    assert_eq!(RGBMatrixEffects(u64::MAX).enabled_effect_list(), (0..64).collect::<Vec<u8>>());
}

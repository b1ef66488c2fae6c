use std::collections::HashMap;

use qmk_xap::aggregation::keymap::MappedKeymap;
use qmk_xap::aggregation::{LightingCapabilities, Point2D, Point3D, XapConstants};
use qmk_xap::constants::keycode::XapKeyCode;
use qmk_xap::constants::lighting::{LightingEffect, LightingEffects};
use qmk_xap::device::KeymapKey;
use qmk_xap::spec::keymap::KeymapGetKeycodeArg;

fn effect(code: u16, label: &str) -> LightingEffect {
    LightingEffect { code, key: label.to_uppercase(), group: None, label: label.to_owned() }
}

#[test]
fn lighting_effects_are_sorted_by_label() {
    let caps = LightingCapabilities::new(
        vec![effect(3, "Solid Color"), effect(1, "Breathing"), effect(2, "Alphas Mods"), effect(9, "Breathing")],
        true,
        false,
        true,
    );
    let order: Vec<(u16, &str)> = caps.effects.iter().map(|e| (e.code, e.label.as_str())).collect();
    assert_eq!(order, vec![(2, "Alphas Mods"), (1, "Breathing"), (9, "Breathing"), (3, "Solid Color")]);
    assert!(caps.get_config_enabled);
    assert!(!caps.set_config_enabled);
    assert!(caps.save_config_enabled);
}

fn keycode(code: u16, group: Option<&str>) -> XapKeyCode {
    XapKeyCode {
        code,
        key: format!("K{code}"),
        group: group.map(str::to_owned),
        label: None,
        aliases: vec![],
    }
}

#[test]
fn keycodes_are_grouped_by_category() {
    let mut keycodes = HashMap::new();
    for (code, group) in [(5, Some("basic")), (1, Some("internal")), (4, Some("basic")), (0x7700, None)] {
        keycodes.insert(code, keycode(code, group));
    }
    let constants = qmk_xap::constants::XapConstants::new(
        keycodes,
        LightingEffects::empty(),
        LightingEffects::empty(),
        LightingEffects::empty(),
    );
    let grouped = XapConstants::from(constants);
    assert_eq!(grouped.keycodes.len(), 3);
    let find = |name: &str| {
        grouped
            .keycodes
            .iter()
            .find(|c| c.name == name)
            .map(|c| c.codes.iter().map(|k| k.code).collect::<Vec<u16>>())
    };
    assert_eq!(find("basic"), Some(vec![4, 5]));
    assert_eq!(find("internal"), Some(vec![1]));
    assert_eq!(find("other"), Some(vec![0x7700]));
    assert!(grouped.rgblight_modes.effects.is_empty());
}

#[test]
fn point_to_keymap_position() {
    let arg: KeymapGetKeycodeArg = Point3D { x: 3, y: 2, z: 1 }.into();
    assert_eq!(arg, KeymapGetKeycodeArg { layer: 1, row: 2, column: 3 });
    let cut: KeymapGetKeycodeArg = Point3D { x: 256 + 7, y: 0, z: 0 }.into();
    assert_eq!(cut.column, 7);
}

#[test]
fn mapped_keymap_insert() {
    let mut keymap: MappedKeymap<u32> = MappedKeymap::new(2, 2, 3);
    assert_eq!(keymap.dimensions, Point3D { x: 3, y: 2, z: 2 });
    assert_eq!(keymap.size, Point2D { x: 0, y: 0 });
    let key = KeymapKey {
        code: XapKeyCode::new_custom(7),
        position: KeymapGetKeycodeArg { layer: 1, row: 1, column: 2 },
    };
    keymap.insert(key, 99);
    let slot = keymap.keys[1][1][2].as_ref().expect("inserted");
    assert_eq!(slot.layout, 99);
    assert_eq!(slot.key.code.code, 7);
    assert!(keymap.keys[0][1][2].is_none());
    assert_eq!(keymap.size, Point2D { x: 2, y: 1 });
}

fn key_at(code: u16, layer: u8, row: u8, column: u8) -> KeymapKey {
    KeymapKey { code: XapKeyCode::new_custom(code), position: KeymapGetKeycodeArg { layer, row, column } }
}

#[test]
fn mapped_keymap_keeps_last_key_per_position() {
    let mut keymap: MappedKeymap<u32> = MappedKeymap::new(2, 3, 4);
    keymap.insert(key_at(1, 0, 2, 1), 10);
    keymap.insert(key_at(2, 1, 0, 3), 20);
    keymap.insert(key_at(3, 0, 2, 1), 30);
    let slot = keymap.keys[0][2][1].as_ref().expect("inserted");
    assert_eq!(slot.key.code.code, 3);
    assert_eq!(slot.layout, 30);
    assert_eq!(keymap.keys[1][0][3].as_ref().expect("inserted").layout, 20);
    let filled = keymap.keys.iter().flatten().flatten().filter(|s| s.is_some()).count();
    assert_eq!(filled, 2);
    assert_eq!(keymap.size, Point2D { x: 3, y: 2 });
    assert_eq!(keymap.dimensions, Point3D { x: 4, y: 3, z: 2 });
}

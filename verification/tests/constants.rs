use std::collections::HashMap;

use qmk_xap::constants::keycode::{is_table_file, XapKeyCode};
use qmk_xap::constants::lighting::{LightingEffect, LightingEffects};
use qmk_xap::constants::{effects_from_hex_map, keycodes_from_hex_map, merge_keycode_table, XapConstants};
use serde_json::Value;

fn text(v: &Value, name: &str) -> Option<String> {
    v.get(name).and_then(Value::as_str).map(str::to_owned)
}

/// The entries of a keycode table, each value read field by field; an empty
/// label counts as none.
fn keycode_entries(table: &Value) -> Vec<(String, XapKeyCode)> {
    table
        .as_object()
        .expect("table")
        .iter()
        .map(|(raw, v)| {
            let keycode = XapKeyCode {
                code: v.get("code").and_then(Value::as_u64).unwrap_or(0) as u16,
                key: text(v, "key").expect("key"),
                group: text(v, "group"),
                label: text(v, "label").filter(|l| !l.is_empty()),
                aliases: v
                    .get("aliases")
                    .and_then(Value::as_array)
                    .map(|a| a.iter().filter_map(Value::as_str).map(str::to_owned).collect())
                    .unwrap_or_default(),
            };
            (raw.clone(), keycode)
        })
        .collect()
}

/// The entries of an effect table, each value read field by field.
fn effect_entries(table: &Value) -> Vec<(String, LightingEffect)> {
    table
        .as_object()
        .expect("table")
        .iter()
        .map(|(raw, v)| {
            let effect = LightingEffect {
                code: 0,
                key: text(v, "key").expect("key"),
                group: text(v, "group"),
                label: String::new(),
            };
            (raw.clone(), effect)
        })
        .collect()
}

#[test]
fn keycode_deserialize_keycodes() {
    let input = r#"{
        "keycodes": {
            "0x0000": {
                "group": "internal",
                "key": "KC_NO",
                "label": "",
                "aliases": [
                    "XXXXXXX"
                ]
            },
            "0x0001": {
                "group": "internal",
                "key": "KC_TRANSPARENT",
                "label": "",
                "aliases": [
                    "_______",
                    "KC_TRNS"
                ]
            },
            "0x0004": {
                "group": "basic",
                "key": "KC_A",
                "label": "A"
            },
            "0x0005": {
                "group": "basic",
                "key": "KC_B",
                "label": "B"
            }
        }
    }"#;

    let value: Value = deser_hjson::from_str(input).expect("deserialization failed");
    let keycodes =
        keycodes_from_hex_map(keycode_entries(&value["keycodes"])).expect("deserialization failed");

    assert_eq!(keycodes.len(), 4);

    assert_eq!(
        keycodes[&0],
        XapKeyCode {
            code: 0,
            group: Some("internal".to_owned()),
            key: "KC_NO".to_owned(),
            label: None,
            aliases: vec!["XXXXXXX".to_owned()]
        }
    );

    assert_eq!(
        keycodes[&1],
        XapKeyCode {
            code: 1,
            group: Some("internal".to_owned()),
            key: "KC_TRANSPARENT".to_owned(),
            label: None,
            aliases: vec!["_______".to_owned(), "KC_TRNS".to_owned()]
        }
    );

    assert_eq!(
        keycodes[&4],
        XapKeyCode {
            code: 4,
            group: Some("basic".to_owned()),
            key: "KC_A".to_owned(),
            label: Some("A".to_owned()),
            aliases: vec![]
        }
    );

    assert_eq!(
        keycodes[&5],
        XapKeyCode {
            code: 5,
            group: Some("basic".to_owned()),
            key: "KC_B".to_owned(),
            label: Some("B".to_owned()),
            aliases: vec![]
        }
    );
}

const EFFECTS: &str = r#"
    {
        "groups": {
            "framebuffer": {
                "define": "RGB_MATRIX_FRAMEBUFFER_EFFECTS"
            },
            "reactive": {
                "define": "RGB_MATRIX_KEYREACTIVE_ENABLED"
            }
        },
        "effects": {
            "0x00": {
                "key": "SOLID_COLOR"
            },
            "0x1E": {
                "key": "TYPING_HEATMAP",
                "group": "framebuffer"
            },
            "0x20": {
                "key": "SOLID_REACTIVE_SIMPLE",
                "group": "reactive"
            },
        }
    }
"#;

fn read_effects() -> HashMap<u16, LightingEffect> {
    let value: Value = deser_hjson::from_str(EFFECTS).expect("deserialization failed");
    effects_from_hex_map(effect_entries(&value["effects"])).expect("deserialization failed")
}

#[test]
fn deserialize_lighting_effects() {
    let effects = read_effects();

    assert_eq!(effects.len(), 3);
    assert_eq!(effects[&0].code, 0);
    assert_eq!(effects[&0].key, "SOLID_COLOR");
    assert_eq!(effects[&0].group, None);
    assert_eq!(effects[&0x1e].code, 0x1e);
    assert_eq!(effects[&0x1e].key, "TYPING_HEATMAP");
    assert_eq!(effects[&0x1e].group, Some("framebuffer".to_owned()));
    assert_eq!(effects[&0x20].code, 0x20);
    assert_eq!(effects[&0x20].key, "SOLID_REACTIVE_SIMPLE");
    assert_eq!(effects[&0x20].group, Some("reactive".to_owned()));
}

#[test]
fn deserialize() {
    let effects = read_effects();

    assert_eq!(effects.len(), 3);
    assert_eq!(
        effects[&0],
        LightingEffect {
            code: 0,
            key: "SOLID_COLOR".to_owned(),
            group: None,
            label: "Solid Color".to_owned()
        }
    );
    assert_eq!(
        effects[&0x1e],
        LightingEffect {
            code: 0x1e,
            key: "TYPING_HEATMAP".to_owned(),
            group: Some("framebuffer".to_owned()),
            label: "Typing Heatmap".to_owned()
        }
    );
    assert_eq!(
        effects[&0x20],
        LightingEffect {
            code: 0x20,
            key: "SOLID_REACTIVE_SIMPLE".to_owned(),
            group: Some("reactive".to_owned()),
            label: "Solid Reactive Simple".to_owned()
        }
    );
}

fn keycode(key: &str, group: Option<&str>) -> XapKeyCode {
    XapKeyCode {
        code: 0,
        key: key.to_owned(),
        group: group.map(str::to_owned),
        label: None,
        aliases: vec![],
    }
}

#[test]
fn table_with_a_bad_code_is_refused() {
    let entries = vec![
        ("0x0004".to_owned(), keycode("KC_A", None)),
        ("KC_B".to_owned(), keycode("KC_B", None)),
    ];
    assert!(keycodes_from_hex_map(entries).is_none());
    let too_big = vec![("0x10000".to_owned(), keycode("KC_X", None))];
    assert!(keycodes_from_hex_map(too_big).is_none());
    let effects = vec![("0xZZ".to_owned(), LightingEffect {
        code: 0,
        key: "X".to_owned(),
        group: None,
        label: String::new(),
    })];
    assert!(effects_from_hex_map(effects).is_none());
}

#[test]
fn later_entry_for_the_same_code_wins() {
    let entries = vec![
        ("0x04".to_owned(), keycode("FIRST", None)),
        ("4".to_owned(), keycode("SECOND", None)),
    ];
    let table = keycodes_from_hex_map(entries).unwrap();
    assert_eq!(table.len(), 1);
    assert_eq!(table[&4].key, "SECOND");
    assert_eq!(table[&4].code, 4);
}

#[test]
fn unknown_keycodes_are_user_defined() {
    let mut keycodes = HashMap::new();
    keycodes.insert(4, XapKeyCode { code: 4, ..keycode("KC_A", Some("basic")) });
    let constants = XapConstants::new(
        keycodes,
        LightingEffects::empty(),
        LightingEffects::empty(),
        LightingEffects::empty(),
    );
    assert_eq!(constants.get_keycode(4).key, "KC_A");
    let custom = constants.get_keycode(0x7E40);
    assert_eq!(
        custom,
        XapKeyCode {
            code: 0x7E40,
            key: "USER-CUSTOM-32320".to_owned(),
            group: Some("USER-CUSTOM".to_owned()),
            label: Some("32320".to_owned()),
            aliases: vec![],
        }
    );
    assert_eq!(XapKeyCode::new_custom(0).key, "USER-CUSTOM-0");
}

#[test]
fn effect_map_lists_enabled_known_effects_by_code() {
    let table = LightingEffects { groups: None, effects: read_effects() };
    assert!(table.codes_fit());
    let enabled = table.get_effect_map((1 << 0) | (1 << 0x20) | (1 << 0x21));
    let keys: Vec<&str> = enabled.iter().map(|e| e.key.as_str()).collect();
    assert_eq!(keys, vec!["SOLID_COLOR", "SOLID_REACTIVE_SIMPLE"]);
    assert!(table.get_effect_map(0).is_empty());
    assert!(LightingEffects::empty().get_effect_map(u64::MAX).is_empty());
}

#[test]
fn table_files_are_recognised_by_name() {
    assert!(is_table_file("keycodes_0.0.1.hjson", "keycodes"));
    assert!(is_table_file("rgb_matrix_0.0.1.hjson", "rgb_matrix"));
    assert!(!is_table_file("xap_0.0.1.hjson", "keycodes"));
    assert!(!is_table_file("key", "keycodes"));
}

#[test]
fn later_table_wins_when_merged() {
    let mut all = HashMap::new();
    let first = vec![
        ("0x04".to_owned(), keycode("KC_A", Some("basic"))),
        ("0x05".to_owned(), keycode("KC_B", Some("basic"))),
    ];
    assert!(merge_keycode_table(&mut all, first));
    let second = vec![("0x0005".to_owned(), keycode("KC_B_NEW", None))];
    assert!(merge_keycode_table(&mut all, second));
    assert_eq!(all.len(), 2);
    assert_eq!(all[&4].key, "KC_A");
    assert_eq!(all[&5].key, "KC_B_NEW");
    assert_eq!(all[&5].code, 5);
}

#[test]
fn refused_table_leaves_merged_keycodes_alone() {
    let mut all = HashMap::new();
    assert!(merge_keycode_table(&mut all, vec![("0x04".to_owned(), keycode("KC_A", None))]));
    let bad = vec![
        ("0x05".to_owned(), keycode("KC_B", None)),
        ("nope".to_owned(), keycode("KC_C", None)),
    ];
    assert!(!merge_keycode_table(&mut all, bad));
    assert_eq!(all.len(), 1);
    assert_eq!(all[&4].key, "KC_A");
}

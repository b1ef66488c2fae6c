use std::collections::HashMap;
use std::io::Write;

use flate2::write::GzEncoder;
use flate2::Compression;

use qmk_xap::aggregation::{Config, Matrix};
use qmk_xap::constants::keycode::XapKeyCode;
use qmk_xap::constants::lighting::{LightingEffect, LightingEffects};
use qmk_xap::constants::XapConstants;
use qmk_xap::probe::{DeviceProbe, KeymapProbe, ProbeStep};
use qmk_xap::XapError;

fn gzip(text: &str) -> Vec<u8> {
    let mut encoder = GzEncoder::new(Vec::new(), Compression::default());
    encoder.write_all(text.as_bytes()).unwrap();
    encoder.finish().unwrap()
}

fn effect(code: u16, key: &str, label: &str) -> LightingEffect {
    LightingEffect { code, key: key.to_owned(), group: None, label: label.to_owned() }
}

fn constants() -> XapConstants {
    let mut keycodes = HashMap::new();
    keycodes.insert(
        4,
        XapKeyCode {
            code: 4,
            key: "KC_A".to_owned(),
            group: Some("basic".to_owned()),
            label: Some("A".to_owned()),
            aliases: vec![],
        },
    );
    let mut rgb = HashMap::new();
    rgb.insert(0, effect(0, "SOLID_COLOR", "Solid Color"));
    rgb.insert(2, effect(2, "BREATHING", "Breathing"));
    rgb.insert(3, effect(3, "ALPHAS_MODS", "Alphas Mods"));
    let rgblight = LightingEffects { groups: None, effects: rgb };
    XapConstants::new(keycodes, rgblight, LightingEffects::empty(), LightingEffects::empty())
}

fn answer(probe: &mut DeviceProbe, expected: ProbeStep, payload: &[u8]) {
    assert_eq!(probe.step(), expected);
    assert!(probe.request().is_some());
    assert!(!probe.accept_overflows(payload));
    probe.accept(payload).expect("accepted");
}

#[test]
fn probe_of_a_full_device() {
    let config = r#"{"matrix_size": {"cols": 2, "rows": 1}}"#;
    let blob = gzip(config);
    let mut p = DeviceProbe::new();
    // XAP, QMK, keymap, remapping and lighting enabled.
    answer(&mut p, ProbeStep::Subsystems, &[0b0111_0011, 0, 0, 0]);
    answer(&mut p, ProbeStep::XapVersion, &[0x00, 0x03, 0, 0]);
    answer(&mut p, ProbeStep::QmkCapabilities, &[0xFF, 0x03, 0, 0]);
    answer(&mut p, ProbeStep::BoardIdentifiers, &[0xED, 0xFE, 0x60, 0x60, 1, 0, 4, 3, 2, 1]);
    answer(&mut p, ProbeStep::BoardManufacturer, b"\"Acme\"");
    answer(&mut p, ProbeStep::ProductName, b"\"Board\"");
    let size = blob.len() as u16;
    answer(&mut p, ProbeStep::ConfigBlobLength, &size.to_le_bytes());
    let mut offset = 0usize;
    while p.step() == ProbeStep::ConfigBlobChunk {
        let q = p.request().unwrap();
        assert_eq!(q.id, vec![0x01, 0x06]);
        assert_eq!(q.payload, (offset as u16).to_le_bytes().to_vec());
        let mut chunk = [0u8; 32];
        let end = (offset + 32).min(blob.len());
        chunk[..end - offset].copy_from_slice(&blob[offset..end]);
        p.accept(&chunk).unwrap();
        offset += 32;
    }
    assert_eq!(p.step(), ProbeStep::ParseConfig);
    assert!(p.request().is_none());
    assert_eq!(p.config_text().unwrap(), config);
    p.accept_config(Config { matrix_size: Matrix { cols: 2, rows: 1 } });
    let hwid: Vec<u8> = [1u32, 22, 333, 4444].iter().flat_map(|w| w.to_le_bytes()).collect();
    answer(&mut p, ProbeStep::HardwareIdentifier, &hwid);
    answer(&mut p, ProbeStep::QmkVersion, &[0x15, 0x01, 0x02, 0x00]);
    answer(&mut p, ProbeStep::KeymapCapabilities, &[0b0001_1110, 0, 0, 0]);
    answer(&mut p, ProbeStep::KeymapLayerCount, &[2]);
    answer(&mut p, ProbeStep::RemappingCapabilities, &[0b0000_1110, 0, 0, 0]);
    answer(&mut p, ProbeStep::RemappingLayerCount, &[2]);
    answer(&mut p, ProbeStep::LightingCapabilities, &[0b0000_1000, 0, 0, 0]);
    answer(&mut p, ProbeStep::RgblightCapabilities, &[0b0011_0110, 0, 0, 0]);
    answer(&mut p, ProbeStep::RgblightEffects, &[0b0000_1101, 0, 0, 0, 0, 0, 0, 0]);
    assert_eq!(p.step(), ProbeStep::Done);
    assert!(p.request().is_none());

    let info = p.finish(&constants());
    assert_eq!(info.xap.version, 0x0300);
    assert_eq!(info.qmk.version, "131349");
    assert_eq!(info.qmk.manufacturer, "Acme");
    assert_eq!(info.qmk.product_name, "Board");
    assert_eq!(info.qmk.hardware_id, "1223334444");
    assert_eq!(info.qmk.board_ids.vendor_id, 0xFEED);
    assert_eq!(info.qmk.board_ids.qmk_unique_identifier, 0x01020304);
    assert!(info.qmk.jump_to_bootloader_enabled);
    assert!(info.qmk.eeprom_reset_enabled);
    let keymap = info.keymap.unwrap();
    assert_eq!(keymap.matrix, Matrix { cols: 2, rows: 1 });
    assert_eq!(keymap.layer_count, Some(2));
    assert!(keymap.get_keycode_enabled);
    assert!(keymap.get_encoder_keycode_enabled);
    let remap = info.remap.unwrap();
    assert_eq!(remap.layer_count, Some(2));
    assert!(remap.set_keycode_enabled);
    assert!(!remap.set_encoder_keycode_enabled);
    let lighting = info.lighting.unwrap();
    assert!(lighting.backlight.is_none());
    assert!(lighting.rgbmatrix.is_none());
    let rgblight = lighting.rgblight.unwrap();
    let labels: Vec<&str> = rgblight.effects.iter().map(|e| e.label.as_str()).collect();
    assert_eq!(labels, vec!["Alphas Mods", "Breathing", "Solid Color"]);
    assert!(rgblight.set_config_enabled);
    assert!(!rgblight.get_config_enabled);
    assert!(rgblight.save_config_enabled);
}

#[test]
fn probe_of_a_minimal_device() {
    let mut p = DeviceProbe::new();
    answer(&mut p, ProbeStep::Subsystems, &[0b11, 0, 0, 0]);
    answer(&mut p, ProbeStep::XapVersion, &[0x00, 0x02, 0, 0]);
    answer(&mut p, ProbeStep::QmkCapabilities, &[0, 0, 0, 0]);
    answer(&mut p, ProbeStep::BoardIdentifiers, &[0; 10]);
    answer(&mut p, ProbeStep::BoardManufacturer, b"m");
    answer(&mut p, ProbeStep::ProductName, b"p");
    answer(&mut p, ProbeStep::ConfigBlobLength, &[0, 0]);
    assert_eq!(p.step(), ProbeStep::ParseConfig);
    assert_eq!(p.config_text(), Err(XapError::Decompression));
    p.accept_config(Config::default());
    answer(&mut p, ProbeStep::HardwareIdentifier, &[0; 16]);
    answer(&mut p, ProbeStep::QmkVersion, &[0; 4]);
    assert_eq!(p.step(), ProbeStep::Done);
    let info = p.finish(&constants());
    assert!(info.keymap.is_none() && info.remap.is_none() && info.lighting.is_none());
    assert!(!info.qmk.jump_to_bootloader_enabled);
    assert_eq!(info.qmk.hardware_id, "0000");
}

#[test]
fn unreadable_answer_leaves_the_probe_as_it_was() {
    let mut p = DeviceProbe::new();
    assert_eq!(p.accept(&[1, 2]), Err(XapError::UnexpectedEndOfInput));
    assert_eq!(p.step(), ProbeStep::Subsystems);
    answer(&mut p, ProbeStep::Subsystems, &[0b11, 0, 0, 0]);
    answer(&mut p, ProbeStep::XapVersion, &[0x00, 0x02, 0, 0]);
    answer(&mut p, ProbeStep::QmkCapabilities, &[0, 0, 0, 0]);
    answer(&mut p, ProbeStep::BoardIdentifiers, &[0; 10]);
    assert_eq!(p.accept(&[0xff]), Err(XapError::InvalidUtf8));
    assert_eq!(p.step(), ProbeStep::BoardManufacturer);
}

#[test]
fn keymap_probe_reads_every_key_in_order() {
    let mut p = DeviceProbe::new();
    answer(&mut p, ProbeStep::Subsystems, &[0b1_0011, 0, 0, 0]);
    answer(&mut p, ProbeStep::XapVersion, &[0x00, 0x02, 0, 0]);
    answer(&mut p, ProbeStep::QmkCapabilities, &[0, 0, 0, 0]);
    answer(&mut p, ProbeStep::BoardIdentifiers, &[0; 10]);
    answer(&mut p, ProbeStep::BoardManufacturer, b"m");
    answer(&mut p, ProbeStep::ProductName, b"p");
    answer(&mut p, ProbeStep::ConfigBlobLength, &[0, 0]);
    let config = Config { matrix_size: Matrix { cols: 2, rows: 2 } };
    p.accept_config(config);
    answer(&mut p, ProbeStep::HardwareIdentifier, &[0; 16]);
    answer(&mut p, ProbeStep::QmkVersion, &[0; 4]);
    answer(&mut p, ProbeStep::KeymapCapabilities, &[0b110, 0, 0, 0]);
    answer(&mut p, ProbeStep::KeymapLayerCount, &[2]);
    let info = p.finish(&constants());

    let mut k = KeymapProbe::new(&info, &p.config());
    let mut seen = Vec::new();
    while let Some(pos) = k.next_position() {
        seen.push((pos.layer, pos.row, pos.column));
        let code = if seen.len() == 2 { 4u16 } else { 0x7000 + seen.len() as u16 };
        k.accept(&code.to_le_bytes()).unwrap();
    }
    assert!(k.is_done());
    assert_eq!(
        seen,
        vec![(0, 0, 0), (0, 0, 1), (0, 1, 0), (0, 1, 1), (1, 0, 0), (1, 0, 1), (1, 1, 0), (1, 1, 1)]
    );
    let keymap = k.finish(&constants());
    assert_eq!(keymap.0.len(), 2);
    assert_eq!(keymap.0[0][0][1].code.key, "KC_A");
    assert_eq!(keymap.0[1][1][1].code.key, "USER-CUSTOM-28680");
    assert_eq!(keymap.0[1][1][1].position.layer, 1);
    assert_eq!(k.accept(&[1]), Err(XapError::UnexpectedEndOfInput));
}

fn lighting_only_probe() -> DeviceProbe {
    let mut p = DeviceProbe::new();
    answer(&mut p, ProbeStep::Subsystems, &[0b0100_0011, 0, 0, 0]);
    answer(&mut p, ProbeStep::XapVersion, &[0x00, 0x03, 0, 0]);
    answer(&mut p, ProbeStep::QmkCapabilities, &[0, 0, 0, 0]);
    answer(&mut p, ProbeStep::BoardIdentifiers, &[0; 10]);
    answer(&mut p, ProbeStep::BoardManufacturer, b"m");
    answer(&mut p, ProbeStep::ProductName, b"p");
    answer(&mut p, ProbeStep::ConfigBlobLength, &[0, 0]);
    p.accept_config(Config::default());
    answer(&mut p, ProbeStep::HardwareIdentifier, &[0; 16]);
    answer(&mut p, ProbeStep::QmkVersion, &[0; 4]);
    // Only the RGB light subsystem.
    answer(&mut p, ProbeStep::LightingCapabilities, &[0b0000_1000, 0, 0, 0]);
    answer(&mut p, ProbeStep::RgblightCapabilities, &[0b0000_0100, 0, 0, 0]);
    answer(&mut p, ProbeStep::RgblightEffects, &[0b0000_0001, 0, 0, 0, 0, 0, 0, 0]);
    assert_eq!(p.step(), ProbeStep::Done);
    p
}

fn table_with_code(code: u16) -> LightingEffects {
    let mut effects = HashMap::new();
    effects.insert(code, effect(code, "E", "E"));
    LightingEffects { groups: None, effects }
}

#[test]
fn tables_fit_looks_only_at_present_subsystems() {
    let p = lighting_only_probe();
    // A wide code in the table of a subsystem the device lacks is never read.
    let unused = XapConstants::new(
        HashMap::new(),
        table_with_code(0),
        LightingEffects::empty(),
        table_with_code(70),
    );
    assert!(p.tables_fit(&unused));
    let info = p.finish(&unused);
    let rgblight = info.lighting.unwrap().rgblight.unwrap();
    assert_eq!(rgblight.effects.len(), 1);
    // A wide code in the table that is read does not fit.
    let used = XapConstants::new(
        HashMap::new(),
        table_with_code(70),
        LightingEffects::empty(),
        LightingEffects::empty(),
    );
    assert!(!p.tables_fit(&used));
}

#[test]
fn tables_fit_without_lighting() {
    let mut p = DeviceProbe::new();
    answer(&mut p, ProbeStep::Subsystems, &[0b11, 0, 0, 0]);
    let wide = XapConstants::new(
        HashMap::new(),
        table_with_code(64),
        table_with_code(65),
        table_with_code(66),
    );
    assert!(p.tables_fit(&wide));
}

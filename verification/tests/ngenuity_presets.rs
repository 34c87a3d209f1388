use hyperx::button::{KeyboardUsage, MacroEvent, MacroPlayback};
use hyperx::color::RgbColor;
use hyperx::reports::{ngenuity_diff_lines, ngenuity_inspection_lines};
use hyperx::ngenuity::{
    format_ngenuity_id, keyboard_usage_name, ngenuity_embedded_payload, parse_ngenuity_preset,
    NgenuityContainer, NgenuityImportError, NgenuityInputAction, NgenuityMouseButton,
    NgenuityPresetError, DPI_RECORD_LENGTH, HEADER_ALL, HEADER_KEY_ASSIGNMENT, HEADER_MACRO,
    HEADER_MACRO_ITEM, HEADER_MOUSE_PRESET, HEADER_PRESET, KEY_ASSIGNMENT_LENGTH,
    SUPPORTED_PRESET_VERSION,
};

const MACRO_ID: [u8; 16] = [0x22; 16];

fn find_header(bytes: &[u8], header: u32) -> Option<usize> {
    let needle = header.to_le_bytes();
    bytes.windows(4).position(|window| window == needle)
}

fn push_macro_item(output: &mut Vec<u8>, action: u8, timing_ms: u32, key_data: u16, id: u8) {
    push_u32(output, HEADER_MACRO_ITEM);
    output.extend_from_slice(&[id; 16]);
    push_u32(output, 1);
    output.push(action);
    output.push(1);
    output.extend_from_slice(&[0; 2]);
    push_u32(output, 0);
    push_u32(output, timing_ms);
    output.extend_from_slice(&key_data.to_le_bytes());
}

fn push_string(output: &mut Vec<u8>, value: &str) {
    assert!(value.len() < 0x80);
    output.push(value.len() as u8);
    output.extend_from_slice(value.as_bytes());
}

fn push_u32(output: &mut Vec<u8>, value: u32) {
    output.extend_from_slice(&value.to_le_bytes());
}

fn fixture(export: bool) -> Vec<u8> {
    fixture_with_playback(export, 1)
}

fn fixture_with_playback(export: bool, playback_mode: u32) -> Vec<u8> {
    let mut inner = Vec::new();
    push_u32(&mut inner, HEADER_PRESET);
    push_u32(&mut inner, SUPPORTED_PRESET_VERSION);
    inner.extend_from_slice(&[0; 8]);
    push_string(&mut inner, "Test preset");
    inner.extend_from_slice(&[0xAA; 16]);

    push_u32(&mut inner, HEADER_MOUSE_PRESET);
    inner.extend_from_slice(&[0x10; 16]);
    inner.extend_from_slice(&[0; 9]);
    push_u32(&mut inner, 1);
    let mut dpi = [0_u8; DPI_RECORD_LENGTH];
    dpi[..16].fill(0x11);
    dpi[16..20].copy_from_slice(&800_u32.to_le_bytes());
    dpi[36..40].copy_from_slice(&[0xFF, 0x2B, 0, 0xFF]);
    inner.extend_from_slice(&dpi);
    push_u32(&mut inner, 1);

    push_u32(&mut inner, 1);
    let mut assignment = [0_u8; KEY_ASSIGNMENT_LENGTH];
    assignment[..4].copy_from_slice(&HEADER_KEY_ASSIGNMENT.to_le_bytes());
    assignment[4..20].fill(0x33);
    assignment[27..43].copy_from_slice(&MACRO_ID);
    inner.extend_from_slice(&assignment);

    push_u32(&mut inner, 1);
    push_u32(&mut inner, HEADER_MACRO);
    inner.extend_from_slice(&MACRO_ID);
    push_string(&mut inner, "Test macro");
    inner.push(1);
    push_u32(&mut inner, 300);
    inner.push(0);
    push_u32(&mut inner, playback_mode);
    inner.push(1);
    push_u32(&mut inner, 2);
    push_macro_item(&mut inner, 0, 20, 0x04, 0x44);
    push_macro_item(&mut inner, 1, 78, 0x04, 0x55);

    if !export {
        return inner;
    }
    let mut outer = Vec::new();
    push_u32(&mut outer, HEADER_ALL);
    push_u32(&mut outer, inner.len() as u32);
    outer.extend_from_slice(&inner);
    outer
}

#[test]
fn parses_export_and_imports_confirmed_fields() {
    let bytes = fixture(true);
    let preset = parse_ngenuity_preset(&bytes).unwrap();

    assert_eq!(preset.container, NgenuityContainer::Export);
    assert_eq!(preset.version, 40);
    assert_eq!(preset.name, "Test preset");
    assert_eq!(preset.dpi_stages.len(), 1);
    assert_eq!(preset.dpi_stages[0].dpi, 800);
    assert_eq!(preset.dpi_stages[0].color, RgbColor::new(0x2B, 0, 0xFF));
    assert_eq!(preset.active_dpi_stage, 1);
    assert_eq!(preset.macros.len(), 1);
    assert_eq!(preset.macros[0].items.len(), 2);
    assert_eq!(preset.key_assignments[0].macro_source_id, Some(MACRO_ID));

    let imported = preset.to_software_profile("pulsefire-raid").unwrap();
    assert!(imported.partial);
    let dpi = imported.dpi.unwrap();
    assert_eq!(dpi.active_stage, None);
    assert_eq!(dpi.source_active_stage, Some(1));
    assert_eq!(imported.macros[0].definition.playback, MacroPlayback::Once);
    assert_eq!(
        imported.macros[0].definition.events,
        vec![
            MacroEvent::KeyDown {
                key: "a".to_owned(),
                delay_ms: 300,
            },
            MacroEvent::KeyUp {
                key: "a".to_owned(),
                delay_ms: 300,
            },
        ]
    );
}

#[test]
fn import_keeps_identifiers_as_lower_hex_and_the_device_name() {
    let preset = parse_ngenuity_preset(&fixture(true)).unwrap();
    let imported = preset.to_software_profile("pulsefire-raid").unwrap();
    assert_eq!(imported.device, "pulsefire-raid");
    assert_eq!(imported.name, "Test preset");
    assert_eq!(imported.macros[0].source_id, "22".repeat(16));
    assert_eq!(imported.macros[0].name, "Test macro");
    assert_eq!(
        imported.unresolved_button_assignments[0].macro_source_id,
        Some("22".repeat(16))
    );
    assert_eq!(imported.unresolved_button_assignments[0].source_id, "33".repeat(16));
    assert_eq!(format_ngenuity_id(&[0xAB; 16]), "ab".repeat(16));
}

#[test]
fn import_rejects_an_unknown_playback_mode() {
    let preset = parse_ngenuity_preset(&fixture_with_playback(true, 9)).unwrap();
    assert_eq!(
        preset.to_software_profile("pulsefire-raid"),
        Err(NgenuityImportError::UnsupportedPlayback {
            name: "Test macro".to_owned(),
            mode: 9,
        })
    );
}

#[test]
fn parses_internal_preset_without_export_wrapper() {
    let bytes = fixture(false);
    let preset = parse_ngenuity_preset(&bytes).unwrap();
    assert_eq!(preset.container, NgenuityContainer::InternalPreset);
    assert_eq!(preset.embedded_length, bytes.len());
}

#[test]
fn embedded_payload_strips_the_export_wrapper() {
    let inner = fixture(false);
    assert_eq!(ngenuity_embedded_payload(&fixture(true)), Ok(inner.clone()));
    assert_eq!(ngenuity_embedded_payload(&inner), Ok(inner));
    assert_eq!(
        ngenuity_embedded_payload(&[1, 2, 3, 4]),
        Err(NgenuityPresetError::UnknownHeader(0x0403_0201))
    );
}

#[test]
fn recorded_timing_and_mouse_actions_are_preserved() {
    let mut bytes = fixture(true);
    let preset = parse_ngenuity_preset(&bytes).unwrap();
    let first = find_header(&bytes, HEADER_MACRO).unwrap();
    let name_end = first + 20 + 1 + "Test macro".len();
    bytes[name_end] = 0;
    let first_item = name_end + 15;
    bytes[first_item + 32..first_item + 36].copy_from_slice(&953_u32.to_le_bytes());
    bytes[first_item + 20..first_item + 24].copy_from_slice(&2_u32.to_le_bytes());
    bytes[first_item + 24] = 1;
    bytes[first_item + 25] = 2;

    let changed = parse_ngenuity_preset(&bytes).unwrap();
    assert_eq!(
        preset.macros[0].effective_timing_ms(&preset.macros[0].items[0]),
        300
    );
    assert_eq!(
        changed.macros[0].effective_timing_ms(&changed.macros[0].items[0]),
        953
    );
    assert_eq!(
        changed.macros[0].items[0].decoded_action(),
        Some(NgenuityInputAction::MouseButton {
            button: NgenuityMouseButton::Left,
            pressed: true,
        })
    );
    assert_eq!(NgenuityMouseButton::Left.name(), "left");
}

#[test]
fn rejects_unknown_version_and_truncation() {
    let mut unknown = fixture(false);
    unknown[4..8].copy_from_slice(&41_u32.to_le_bytes());
    assert_eq!(
        parse_ngenuity_preset(&unknown),
        Err(NgenuityPresetError::UnsupportedVersion(41))
    );

    let truncated = HEADER_ALL.to_le_bytes();
    assert!(matches!(
        parse_ngenuity_preset(&truncated),
        Err(NgenuityPresetError::Truncated { .. })
    ));
}

#[test]
fn canonical_keyboard_names_round_trip_through_core_parser() {
    for usage in [
        0x04, 0x1D, 0x27, 0x3A, 0x45, 0x59, 0x62, 0x68, 0x73, 0xE0, 0xE7,
    ] {
        let name = keyboard_usage_name(usage).unwrap();
        assert_eq!(name.parse(), Ok(KeyboardUsage(usage)));
    }
    assert_eq!(keyboard_usage_name(0xFFFF), None);
}

#[test]
fn keyboard_usage_names_are_canonical_lower_case() {
    assert_eq!(keyboard_usage_name(0x04), Some("a".to_owned()));
    assert_eq!(keyboard_usage_name(0x27), Some("0".to_owned()));
    assert_eq!(keyboard_usage_name(0x3A), Some("f1".to_owned()));
    assert_eq!(keyboard_usage_name(0xE1), Some("left-shift".to_owned()));
}

#[test]
fn inspection_lists_stages_macros_and_assignments() {
    let preset = parse_ngenuity_preset(&fixture(true)).unwrap();
    let id_22 = "22".repeat(16);
    let id_33 = "33".repeat(16);
    assert_eq!(
        ngenuity_inspection_lines(&preset),
        vec![
            "NGENUITY Legacy preset: Test preset".to_owned(),
            "Container: exported .hxp wrapper".to_owned(),
            "Format version: 40".to_owned(),
            format!("Embedded preset: {} bytes", fixture(false).len()),
            "DPI stages:".to_owned(),
            "  1: 800 DPI, #2B00FF, alpha=255 [active candidate]".to_owned(),
            "  Stored active-stage value: 1 (indexing semantics are not confirmed).".to_owned(),
            "Macros:".to_owned(),
            format!(
                "  1: \"Test macro\" id={id_22} (standard 300 ms, play once, raw mode=1, play-times=1, events=2)"
            ),
            "    1: key-down a (HID 0x0004), delay=300 ms, stored=20 ms".to_owned(),
            "    2: key-up a (HID 0x0004), delay=300 ms, stored=78 ms".to_owned(),
            "Button assignments: 1".to_owned(),
            format!("  1: source_id={id_33}, macro {id_22}; physical control unresolved"),
            "Not decoded from .hxp yet: polling rate, lighting fields, and physical targets for assignments."
                .to_owned(),
            "Inspection was offline; no HID device was opened.".to_owned(),
        ]
    );
}

#[test]
fn diff_report_summarizes_decoded_and_raw_changes() {
    let before_bytes = fixture(true);
    let before = parse_ngenuity_preset(&before_bytes).unwrap();
    let payload = ngenuity_embedded_payload(&before_bytes).unwrap();
    let same = ngenuity_diff_lines(&before, &before, &payload, &payload, false);
    assert_eq!(
        same,
        vec![
            "Compared NGENUITY Legacy presets \"Test preset\" and \"Test preset\".".to_owned(),
            "Decoded changes:".to_owned(),
            "  <none>".to_owned(),
            format!("Raw embedded changes: 0 byte(s); lengths {0} -> {0} bytes.", payload.len()),
            "Comparison was offline; no HID device was opened.".to_owned(),
        ]
    );

    let mut changed_payload = payload.clone();
    let stage = find_header(&changed_payload, HEADER_MOUSE_PRESET).unwrap() + 33;
    changed_payload[stage + 16..stage + 20].copy_from_slice(&900_u32.to_le_bytes());
    changed_payload.push(0);
    let after = parse_ngenuity_preset(&changed_payload).unwrap();
    let lines = ngenuity_diff_lines(&before, &after, &payload, &changed_payload, false);
    let dpi_offset = stage + 16;
    assert_eq!(
        lines,
        vec![
            "Compared NGENUITY Legacy presets \"Test preset\" and \"Test preset\".".to_owned(),
            "Decoded changes:".to_owned(),
            "  DPI stage 1: 800 DPI #2B00FF/alpha 255 -> 900 DPI #2B00FF/alpha 255".to_owned(),
            format!(
                "Raw embedded changes: 2 byte(s); lengths {} -> {} bytes.",
                payload.len(),
                payload.len() + 1
            ),
            "  Lengths differ; raw offsets after an insertion or removal may no longer align.".to_owned(),
            format!("  offset 0x{:04X}: 20 -> 84", dpi_offset),
            format!("  offset 0x{:04X}: -- -> 00", payload.len()),
            "  Raw differences can include regenerated source identifiers; decoded comparisons ignore identifier values."
                .to_owned(),
            "Comparison was offline; no HID device was opened.".to_owned(),
        ]
    );
}

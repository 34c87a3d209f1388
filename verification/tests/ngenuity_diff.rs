use hyperx::color::RgbColor;
use hyperx::ngenuity::{
    NgenuityContainer, NgenuityDpiStage, NgenuityKeyAssignment, NgenuityMacro, NgenuityMacroItem,
    NgenuityPreset,
};
use hyperx::ngenuity_diff::{
    describe_ngenuity_legacy_macro_item, format_macro_reference, macro_reference_index,
    same_ngenuity_legacy_macro_item, semantic_ngenuity_legacy_changes,
};

fn preset() -> NgenuityPreset {
    NgenuityPreset {
        container: NgenuityContainer::Export,
        embedded_length: 100,
        version: 40,
        name: "Preset".to_owned(),
        dpi_stages: vec![NgenuityDpiStage {
            source_id: [1; 16],
            dpi: 800,
            alpha: 255,
            color: RgbColor::new(1, 2, 3),
        }],
        active_dpi_stage: 1,
        macros: Vec::new(),
        key_assignments: Vec::new(),
    }
}

fn key_item(action: u8, usage: u16, timing_ms: u32) -> NgenuityMacroItem {
    NgenuityMacroItem {
        source_id: [9; 16],
        item_type: 1,
        action,
        state: 1,
        data: 0,
        timing_ms,
        key_data: usage,
    }
}

fn one_macro(id: u8, name: &str) -> NgenuityMacro {
    NgenuityMacro {
        source_id: [id; 16],
        name: name.to_owned(),
        use_standard_timing: true,
        standard_timing_ms: 20,
        expanded: false,
        playback_mode: 1,
        play_times: 1,
        items: vec![key_item(0, 0x04, 20), key_item(1, 0x04, 20)],
    }
}

#[test]
fn ngenuity_legacy_diff_reports_semantics_but_ignores_source_ids() {
    let before = preset();
    let mut identifiers_only = before.clone();
    identifiers_only.dpi_stages[0].source_id = [2; 16];
    assert!(semantic_ngenuity_legacy_changes(&before, &identifiers_only).is_empty());

    let mut changed = identifiers_only;
    changed.dpi_stages[0].dpi = 900;
    changed.active_dpi_stage = 2;
    assert_eq!(
        semantic_ngenuity_legacy_changes(&before, &changed),
        vec![
            "DPI stage 1: 800 DPI #010203/alpha 255 -> 900 DPI #010203/alpha 255",
            "stored active-stage value: 1 -> 2",
        ]
    );
}

#[test]
fn ngenuity_diff_reports_added_stages_names_and_macro_events() {
    let mut before = preset();
    before.macros.push(one_macro(0x22, "Macro"));
    before.key_assignments.push(NgenuityKeyAssignment {
        source_id: [3; 16],
        macro_source_id: Some([0x22; 16]),
    });
    let mut after = before.clone();
    after.name = "Renamed \"x\"".to_owned();
    after.dpi_stages.push(NgenuityDpiStage {
        source_id: [4; 16],
        dpi: 1600,
        alpha: 128,
        color: RgbColor::new(0xAB, 0, 0x10),
    });
    after.macros[0].play_times = 3;
    after.macros[0].items[1].timing_ms = 40;
    after.macros[0].items.push(NgenuityMacroItem {
        source_id: [5; 16],
        item_type: 2,
        action: 1,
        state: 2,
        data: 0,
        timing_ms: 15,
        key_data: 0,
    });
    after.key_assignments[0].macro_source_id = Some([0x99; 16]);

    assert_eq!(
        semantic_ngenuity_legacy_changes(&before, &after),
        vec![
            "name: \"Preset\" -> \"Renamed \\\"x\\\"\"",
            "DPI stage count: 1 -> 2",
            "DPI stage 2 added: 1600 DPI #AB0010/alpha 128",
            "macro 1 play times: 1 -> 3",
            "macro 1 event count: 2 -> 3",
            "macro 1 event 2: key-up a (HID 0x0004) (stored 20 ms) -> key-up a (HID 0x0004) (stored 40 ms)",
            "macro 1 event 3 added: mouse-down left (stored 15 ms)",
            "assignment 1 macro reference: macro 1 -> none/unresolved",
        ]
    );
}

#[test]
fn ngenuity_macro_items_are_described_and_compared_without_identifiers() {
    let unknown = NgenuityMacroItem {
        source_id: [0; 16],
        item_type: 7,
        action: 3,
        state: 9,
        data: 12,
        timing_ms: 1,
        key_data: 0xBEEF,
    };
    assert_eq!(
        describe_ngenuity_legacy_macro_item(&unknown),
        "unknown type=7 action=3 state=9 data=12 key-data=0xBEEF"
    );
    assert_eq!(
        describe_ngenuity_legacy_macro_item(&key_item(0, 0xFF, 1)),
        "key-down usage-0x00FF (HID 0x00FF)"
    );
    let mut other_id = unknown;
    other_id.source_id = [1; 16];
    assert!(same_ngenuity_legacy_macro_item(&unknown, &other_id));
    other_id.data = 13;
    assert!(!same_ngenuity_legacy_macro_item(&unknown, &other_id));
}

#[test]
fn macro_references_are_one_based_positions() {
    let mut preset = preset();
    preset.macros.push(one_macro(0x10, "first"));
    preset.macros.push(one_macro(0x20, "second"));
    assert_eq!(macro_reference_index(&preset, Some([0x20; 16])), Some(2));
    assert_eq!(macro_reference_index(&preset, Some([0x30; 16])), None);
    assert_eq!(macro_reference_index(&preset, None), None);
    assert_eq!(format_macro_reference(Some(2)), "macro 2");
    assert_eq!(format_macro_reference(None), "none/unresolved");
}

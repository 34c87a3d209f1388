use hyperx::button::{
    ButtonBinding, KeyboardMacroEvent, KeyboardUsage, MacroBinding, MacroPlayback, MouseFunction,
    MultimediaFunction, WindowsShortcut,
};
use hyperx::capability::PollingRate;
use hyperx::color::RgbColor;
use hyperx::performance::{DpiProfile, DpiStage};
use hyperx::pulsefire_raid::{
    encode_direct_rgb, encode_profile_read_request, encode_runtime_profile_read_prelude,
    ConfirmedMacro, ConfirmedMacroError, DpiAxis, PerformanceProfile, PerformanceProfileError,
    ProfileImageKind, ProfileSection, PulsefireRaidControl, ACTIVE_DPI_STAGE_OFFSET,
    DIRECT_REPORT_ID, DIRECT_REPORT_LENGTH, DPI_UNIT, ONBOARD_PROFILE_SECTION,
    POLLING_INTERVAL_OFFSET, PROFILE_READ_RESPONSE_OPCODE, PROFILE_WRITE_OPCODE,
    RUNTIME_PROFILE_SECTION,
};

const DPI_X_OFFSETS: [usize; 5] = [0x19, 0x1B, 0x1D, 0x1F, 0x21];
const DPI_Y_OFFSETS: [usize; 5] = [0x25, 0x27, 0x29, 0x2B, 0x2D];
const DPI_STAGE_ENABLED_OFFSETS: [usize; 5] = [0x32, 0x33, 0x34, 0x35, 0x36];
const DPI_STAGE_COLOR_OFFSETS: [usize; 5] = [0x69, 0x6C, 0x6F, 0x72, 0x75];

fn keyboard_a_events(timing_ms: u16) -> Vec<KeyboardMacroEvent> {
    vec![
        KeyboardMacroEvent::pressed(KeyboardUsage(0x04), timing_ms),
        KeyboardMacroEvent::released(KeyboardUsage(0x04), timing_ms),
    ]
}

fn keyboard_ab_events(timing_ms: u16) -> Vec<KeyboardMacroEvent> {
    let mut events = keyboard_a_events(timing_ms);
    events.extend([
        KeyboardMacroEvent::pressed(KeyboardUsage(0x05), timing_ms),
        KeyboardMacroEvent::released(KeyboardUsage(0x05), timing_ms),
    ]);
    events
}

fn profile_fixture(kind: ProfileImageKind, section: ProfileSection) -> [u8; DIRECT_REPORT_LENGTH] {
    let mut report = [0_u8; DIRECT_REPORT_LENGTH];
    report[0] = DIRECT_REPORT_ID;
    report[1] = match kind {
        ProfileImageKind::HostWrite => PROFILE_WRITE_OPCODE,
        ProfileImageKind::DeviceReadResponse => PROFILE_READ_RESPONSE_OPCODE,
    };
    report[2] = match section {
        ProfileSection::Onboard => ONBOARD_PROFILE_SECTION,
        ProfileSection::Runtime => RUNTIME_PROFILE_SECTION,
    };
    report[POLLING_INTERVAL_OFFSET] = 0x01;
    for (index, dpi) in [1000_u32, 1600, 3200].into_iter().enumerate() {
        let encoded = u16::try_from(dpi / DPI_UNIT).unwrap().to_be_bytes();
        report[DPI_X_OFFSETS[index]..DPI_X_OFFSETS[index] + 2].copy_from_slice(&encoded);
        report[DPI_Y_OFFSETS[index]..DPI_Y_OFFSETS[index] + 2].copy_from_slice(&encoded);
        report[DPI_STAGE_ENABLED_OFFSETS[index]] = 0x01;
    }
    report[DPI_STAGE_COLOR_OFFSETS[0]..DPI_STAGE_COLOR_OFFSETS[0] + 3]
        .copy_from_slice(&[0x2B, 0x00, 0xFF]);
    report[DPI_STAGE_COLOR_OFFSETS[1]..DPI_STAGE_COLOR_OFFSETS[1] + 3]
        .copy_from_slice(&[0xCD, 0x00, 0xFF]);
    report[DPI_STAGE_COLOR_OFFSETS[2]..DPI_STAGE_COLOR_OFFSETS[2] + 3]
        .copy_from_slice(&[0x32, 0xFF, 0x00]);
    report
}

fn captured_five_stage_profile() -> [u8; DIRECT_REPORT_LENGTH] {
    let mut report = [0_u8; DIRECT_REPORT_LENGTH];
    report[..3].copy_from_slice(&[0x07, 0x81, 0x04]);
    report[0x18..0x78].copy_from_slice(&[
        0x01, 0x00, 0x14, 0x00, 0x20, 0x00, 0x40, 0x00, // 0x18
        0x80, 0x01, 0x40, 0x00, 0x02, 0x00, 0x14, 0x00, // 0x20
        0x20, 0x00, 0x40, 0x00, 0x80, 0x01, 0x40, 0x00, // 0x28
        0x02, 0x00, 0x01, 0x01, 0x01, 0x01, 0x01, 0x01, // 0x30
        0x01, 0x00, 0x00, 0x00, 0x00, 0x00, 0xFF, 0x00, // 0x38
        0x00, 0xFF, 0x00, 0x00, 0x00, 0x00, 0xFF, 0x00, // 0x40
        0xFF, 0x00, 0xFF, 0x00, 0x00, 0xFF, 0x00, 0x00, // 0x48
        0x00, 0xFF, 0x00, 0xFF, 0x00, 0x00, 0x00, 0xFF, // 0x50
        0x00, 0x00, 0x00, 0xFF, 0x00, 0x0A, 0x0A, 0x00, // 0x58
        0x0F, 0x0F, 0x00, 0x0F, 0x0F, 0x00, 0x00, 0x00, // 0x60
        0x02, 0x2B, 0x00, 0xFF, 0xCD, 0x00, 0xFF, 0x32, // 0x68
        0xFF, 0x00, 0xFF, 0x00, 0x00, 0xFF, 0xFF, 0xFF, // 0x70
    ]);
    report
}

fn captured_button_profile() -> [u8; DIRECT_REPORT_LENGTH] {
    let mut report = profile_fixture(ProfileImageKind::DeviceReadResponse, ProfileSection::Runtime);
    report[0x7C..0xA8].copy_from_slice(&[
        0x02, 0xF0, 0x00, 0x00, // left click
        0x02, 0xF2, 0x00, 0x00, // right click
        0x02, 0xF1, 0x00, 0x00, // middle click
        0x02, 0xF8, 0x00, 0x00, // Button 4: Back
        0x02, 0xF9, 0x00, 0x00, // Button 5: Forward
        0x04, 0x00, 0x00, 0xE9, // Button 7: Volume Up
        0x04, 0x00, 0x00, 0xEA, // Button 6: Volume Down
        0x04, 0x00, 0x00, 0xE2, // Button 8: Mute
        0x00, 0x04, 0x00, 0x00, // DPI control remapped to keyboard A
        0x02, 0xF5, 0x00, 0x00, // wheel tilt left
        0x02, 0xF6, 0x00, 0x00, // wheel tilt right
    ]);
    report
}

fn changed_offsets(before: &[u8], after: &[u8]) -> Vec<usize> {
    before
        .iter()
        .zip(after)
        .enumerate()
        .filter_map(|(index, (before, after))| (before != after).then_some(index))
        .collect()
}

#[test]
fn golden_direct_rgb_packet_has_exact_layout_and_zero_fill() {
    let actual = encode_direct_rgb(RgbColor::new(0xFF, 0x80, 0x01), RgbColor::new(0x02, 0x40, 0xFE));
    let mut expected = [0_u8; DIRECT_REPORT_LENGTH];
    expected[..9].copy_from_slice(&[0x07, 0x0A, 0xFF, 0x80, 0x01, 0x02, 0x40, 0xFE, 0xA0]);

    assert_eq!(actual, expected);
}

#[test]
fn off_is_direct_black_for_both_leds() {
    let report = encode_direct_rgb(RgbColor::black(), RgbColor::black());
    assert_eq!(&report[..9], &[0x07, 0x0A, 0, 0, 0, 0, 0, 0, 0xA0]);
    assert!(report[9..].iter().all(|byte| *byte == 0));
}

#[test]
fn golden_runtime_profile_read_reports_match_local_captures() {
    let prelude = encode_runtime_profile_read_prelude();
    assert_eq!(&prelude[..4], &[0x07, 0x03, 0x04, 0x64]);
    assert!(prelude[4..].iter().all(|byte| *byte == 0));

    let request = encode_profile_read_request();
    assert_eq!(&request[..2], &[0x07, 0x81]);
    assert!(request[2..].iter().all(|byte| *byte == 0));
}

#[test]
fn golden_minimal_macro_report_matches_repeated_local_captures() {
    let a_events = keyboard_a_events(20);
    let macro_definition = ConfirmedMacro::button5_keyboard_once(&a_events).unwrap();
    let mut expected = [0_u8; DIRECT_REPORT_LENGTH];
    expected[..16].copy_from_slice(&[
        0x07, 0x05, 0x04, 0x04, 0x00, 0x00, 0x00, 0x00, 0x00, 0x01, 0x80, 0x14, 0x04, 0x00, 0x14,
        0x04,
    ]);

    assert_eq!(macro_definition.as_bytes(), &expected);
    assert_eq!(ConfirmedMacro::parse(&expected).unwrap(), macro_definition);
    assert_eq!(macro_definition.control(), PulsefireRaidControl::Button5);
    assert_eq!(macro_definition.events(), a_events);
    assert_eq!(macro_definition.playback(), MacroPlayback::Once);

    let macro_300ms = ConfirmedMacro::button5_keyboard_once(&keyboard_a_events(300)).unwrap();
    let mut expected_300ms = expected;
    expected_300ms[0x0A..0x10].copy_from_slice(&[0x81, 0x2C, 0x04, 0x01, 0x2C, 0x04]);
    assert_eq!(macro_300ms.as_bytes(), &expected_300ms);
    assert_eq!(ConfirmedMacro::parse(&expected_300ms).unwrap(), macro_300ms);

    let ab_events = keyboard_ab_events(20);
    let macro_ab = ConfirmedMacro::button5_keyboard_once(&ab_events).unwrap();
    let mut expected_ab = expected;
    expected_ab[0x10..0x16].copy_from_slice(&[0x80, 0x14, 0x05, 0x00, 0x14, 0x05]);
    assert_eq!(macro_ab.as_bytes(), &expected_ab);
    assert_eq!(ConfirmedMacro::parse(&expected_ab).unwrap(), macro_ab);
    assert_eq!(macro_ab.events(), ab_events);
}

#[test]
fn minimal_macro_binding_matches_forward_reverse_captures() {
    let macro_definition = ConfirmedMacro::button5_keyboard_once(&keyboard_ab_events(20)).unwrap();
    let mut profile = PerformanceProfile::parse(&captured_button_profile()).unwrap();
    profile
        .set_button_binding(
            PulsefireRaidControl::Button5,
            &ButtonBinding::Mouse(MouseFunction::Forward),
        )
        .unwrap();
    let before = *profile.as_bytes();

    macro_definition.apply_to_profile(&mut profile).unwrap();

    assert_eq!(changed_offsets(&before, profile.as_bytes()), vec![0x8C, 0x8D]);
    assert_eq!(&profile.as_bytes()[0x8C..0x90], &[0x53, 0x00, 0x00, 0x04]);
    assert!(profile.has_confirmed_macro_reference(PulsefireRaidControl::Button5));
    assert!(!profile.has_confirmed_macro_reference(PulsefireRaidControl::Dpi));
    assert!(macro_definition.is_bound_in(&profile));

    profile
        .set_button_binding(
            PulsefireRaidControl::Button5,
            &ButtonBinding::Mouse(MouseFunction::Forward),
        )
        .unwrap();
    assert_eq!(profile.as_bytes(), &before);
    assert!(!macro_definition.is_bound_in(&profile));
}

#[test]
fn minimal_macro_rejects_unconfirmed_variants_and_onboard_binding() {
    assert_eq!(
        ConfirmedMacro::parse(&[0_u8; 16]),
        Err(ConfirmedMacroError::WrongLength(16))
    );

    let unconfirmed_events = keyboard_a_events(50);
    assert_eq!(
        ConfirmedMacro::button5_keyboard_once(&unconfirmed_events),
        Err(ConfirmedMacroError::UnconfirmedEvents(unconfirmed_events.clone()))
    );

    let mut unconfirmed_timing = *ConfirmedMacro::button5_keyboard_once(&keyboard_a_events(20))
        .unwrap()
        .as_bytes();
    unconfirmed_timing[0x0A..0x10].copy_from_slice(&[0x80, 0x32, 0x04, 0x00, 0x32, 0x04]);
    assert_eq!(
        ConfirmedMacro::parse(&unconfirmed_timing),
        Err(ConfirmedMacroError::UnconfirmedByte {
            offset: 0x0B,
            expected: 0x14,
            actual: 0x32,
        })
    );

    for (offset, actual) in [(0x09, 0x02), (0x0C, 0x05), (0x20, 0x01)] {
        let mut report = *ConfirmedMacro::button5_keyboard_once(&keyboard_a_events(20))
            .unwrap()
            .as_bytes();
        let expected = report[offset];
        report[offset] = actual;
        assert_eq!(
            ConfirmedMacro::parse(&report),
            Err(ConfirmedMacroError::UnconfirmedByte {
                offset,
                expected,
                actual,
            })
        );
    }

    let macro_definition = ConfirmedMacro::button5_keyboard_once(&keyboard_a_events(20)).unwrap();
    let original = profile_fixture(ProfileImageKind::HostWrite, ProfileSection::Onboard);
    let mut onboard = PerformanceProfile::parse(&original).unwrap();
    assert_eq!(
        macro_definition.apply_to_profile(&mut onboard),
        Err(ConfirmedMacroError::UnsupportedProfileSection)
    );
    assert_eq!(onboard.as_bytes(), &original);
}

#[test]
fn parses_captured_performance_fields() {
    let report = profile_fixture(ProfileImageKind::DeviceReadResponse, ProfileSection::Runtime);
    let profile = PerformanceProfile::parse(&report).unwrap();

    assert_eq!(profile.kind(), ProfileImageKind::DeviceReadResponse);
    assert_eq!(profile.section(), ProfileSection::Runtime);
    assert_eq!(profile.polling_rate().unwrap(), PollingRate::Hz1000);
    assert_eq!(
        profile.dpi_profile().unwrap(),
        DpiProfile {
            stages: vec![
                DpiStage::new(1000, 1000, RgbColor::new(0x2B, 0x00, 0xFF)),
                DpiStage::new(1600, 1600, RgbColor::new(0xCD, 0x00, 0xFF)),
                DpiStage::new(3200, 3200, RgbColor::new(0x32, 0xFF, 0x00)),
            ],
            active_stage: 0,
        }
    );
}

#[test]
fn parses_captured_onboard_profile_section() {
    let report = profile_fixture(ProfileImageKind::HostWrite, ProfileSection::Onboard);
    let profile = PerformanceProfile::parse(&report).unwrap();

    assert_eq!(profile.kind(), ProfileImageKind::HostWrite);
    assert_eq!(profile.section(), ProfileSection::Onboard);
}

#[test]
fn polling_codes_match_repeated_capture_matrix() {
    for (code, expected) in [
        (0x01, PollingRate::Hz1000),
        (0x02, PollingRate::Hz500),
        (0x04, PollingRate::Hz250),
        (0x08, PollingRate::Hz125),
    ] {
        let mut report = profile_fixture(ProfileImageKind::HostWrite, ProfileSection::Runtime);
        report[POLLING_INTERVAL_OFFSET] = code;
        let profile = PerformanceProfile::parse(&report).unwrap();
        assert_eq!(profile.polling_rate().unwrap(), expected);
    }
}

#[test]
fn offline_polling_patch_changes_only_confirmed_offset() {
    let report = profile_fixture(ProfileImageKind::HostWrite, ProfileSection::Runtime);
    let mut profile = PerformanceProfile::parse(&report).unwrap();

    profile.set_polling_rate(PollingRate::Hz125);

    let changed_offsets: Vec<_> = report
        .iter()
        .zip(profile.as_bytes())
        .enumerate()
        .filter_map(|(index, (before, after))| (before != after).then_some(index))
        .collect();
    assert_eq!(changed_offsets, vec![POLLING_INTERVAL_OFFSET]);
    assert_eq!(profile.as_bytes()[POLLING_INTERVAL_OFFSET], 0x08);
}

#[test]
fn decodes_captured_button_records() {
    let profile = PerformanceProfile::parse(&captured_button_profile()).unwrap();

    assert_eq!(
        profile.button_binding(PulsefireRaidControl::Button4).unwrap(),
        ButtonBinding::Mouse(MouseFunction::Back)
    );
    assert_eq!(
        profile.button_binding(PulsefireRaidControl::Button5).unwrap(),
        ButtonBinding::Mouse(MouseFunction::Forward)
    );
    assert_eq!(
        profile.button_binding(PulsefireRaidControl::Button7).unwrap(),
        ButtonBinding::Multimedia(MultimediaFunction::VolumeUp)
    );
    assert_eq!(
        profile.button_binding(PulsefireRaidControl::Button6).unwrap(),
        ButtonBinding::Multimedia(MultimediaFunction::VolumeDown)
    );
    assert_eq!(
        profile.button_binding(PulsefireRaidControl::Button8).unwrap(),
        ButtonBinding::Multimedia(MultimediaFunction::MuteVolume)
    );
    assert_eq!(
        profile.button_binding(PulsefireRaidControl::Dpi).unwrap(),
        ButtonBinding::Keyboard(KeyboardUsage(0x04))
    );
}

#[test]
fn golden_button_five_sequence_matches_local_captures() {
    let original = captured_button_profile();
    let mut profile = PerformanceProfile::parse(&original).unwrap();

    profile
        .set_button_binding(PulsefireRaidControl::Button5, &ButtonBinding::Disabled)
        .unwrap();
    assert_eq!(changed_offsets(&original, profile.as_bytes()), vec![0x8C, 0x8D]);
    assert_eq!(&profile.as_bytes()[0x8C..0x90], &[0x00; 4]);

    let before = *profile.as_bytes();
    profile
        .set_button_binding(
            PulsefireRaidControl::Button5,
            &ButtonBinding::Mouse(MouseFunction::Forward),
        )
        .unwrap();
    assert_eq!(changed_offsets(&before, profile.as_bytes()), vec![0x8C, 0x8D, 0x8F]);
    assert_eq!(&profile.as_bytes()[0x8C..0x90], &[0x02, 0xF9, 0x00, 0x04]);

    let before = *profile.as_bytes();
    profile
        .set_button_binding(
            PulsefireRaidControl::Button5,
            &ButtonBinding::Mouse(MouseFunction::Back),
        )
        .unwrap();
    assert_eq!(changed_offsets(&before, profile.as_bytes()), vec![0x8D, 0x8F]);
    assert_eq!(&profile.as_bytes()[0x8C..0x90], &[0x02, 0xF8, 0x00, 0x03]);

    let before = *profile.as_bytes();
    profile
        .set_button_binding(
            PulsefireRaidControl::Button5,
            &ButtonBinding::Multimedia(MultimediaFunction::VolumeUp),
        )
        .unwrap();
    assert_eq!(changed_offsets(&before, profile.as_bytes()), vec![0x8C, 0x8D, 0x8F]);
    assert_eq!(&profile.as_bytes()[0x8C..0x90], &[0x04, 0x00, 0x00, 0xE9]);

    let before = *profile.as_bytes();
    profile
        .set_button_binding(
            PulsefireRaidControl::Button5,
            &ButtonBinding::WindowsShortcut(WindowsShortcut::Copy),
        )
        .unwrap();
    assert_eq!(
        changed_offsets(&before, profile.as_bytes()),
        vec![0x8C, 0x8D, 0x8E, 0x8F]
    );
    assert_eq!(&profile.as_bytes()[0x8C..0x90], &[0x23, 0xE0, 0x06, 0x00]);

    let before = *profile.as_bytes();
    profile
        .set_button_binding(
            PulsefireRaidControl::Button5,
            &ButtonBinding::Keyboard(KeyboardUsage(0x04)),
        )
        .unwrap();
    assert_eq!(changed_offsets(&before, profile.as_bytes()), vec![0x8C, 0x8D, 0x8E]);
    assert_eq!(&profile.as_bytes()[0x8C..0x90], &[0x00, 0x04, 0x00, 0x00]);
}

#[test]
fn golden_dpi_toggle_record_matches_two_local_control_slots() {
    let original = captured_button_profile();
    let dpi_toggle = ButtonBinding::Mouse(MouseFunction::DpiToggle);
    let mut profile = PerformanceProfile::parse(&original).unwrap();

    profile
        .set_button_binding(PulsefireRaidControl::Dpi, &dpi_toggle)
        .unwrap();
    assert_eq!(changed_offsets(&original, profile.as_bytes()), vec![0x9C, 0x9D]);
    assert_eq!(&profile.as_bytes()[0x9C..0xA0], &[0x71, 0xF0, 0x00, 0x00]);
    assert_eq!(profile.button_binding(PulsefireRaidControl::Dpi).unwrap(), dpi_toggle);

    let before = *profile.as_bytes();
    profile
        .set_button_binding(PulsefireRaidControl::Button5, &dpi_toggle)
        .unwrap();
    assert_eq!(changed_offsets(&before, profile.as_bytes()), vec![0x8C, 0x8D]);
    assert_eq!(&profile.as_bytes()[0x8C..0x90], &[0x71, 0xF0, 0x00, 0x00]);

    let before = *profile.as_bytes();
    profile
        .set_button_binding(
            PulsefireRaidControl::Button5,
            &ButtonBinding::Mouse(MouseFunction::Forward),
        )
        .unwrap();
    assert_eq!(changed_offsets(&before, profile.as_bytes()), vec![0x8C, 0x8D, 0x8F]);
    assert_eq!(&profile.as_bytes()[0x8C..0x90], &[0x02, 0xF9, 0x00, 0x04]);
}

#[test]
fn standard_hid_binding_families_round_trip_offline() {
    let mut profile = PerformanceProfile::parse(&captured_button_profile()).unwrap();
    let bindings = [
        ButtonBinding::Mouse(MouseFunction::LeftClick),
        ButtonBinding::Mouse(MouseFunction::RightClick),
        ButtonBinding::Mouse(MouseFunction::MiddleClick),
        ButtonBinding::Mouse(MouseFunction::Back),
        ButtonBinding::Mouse(MouseFunction::Forward),
        ButtonBinding::Mouse(MouseFunction::TiltLeft),
        ButtonBinding::Mouse(MouseFunction::TiltRight),
        ButtonBinding::Mouse(MouseFunction::DpiToggle),
        ButtonBinding::Mouse(MouseFunction::ScrollUp),
        ButtonBinding::Mouse(MouseFunction::ScrollDown),
        ButtonBinding::Keyboard(KeyboardUsage(0x2C)),
        ButtonBinding::Multimedia(MultimediaFunction::PlayPause),
        ButtonBinding::Multimedia(MultimediaFunction::Stop),
        ButtonBinding::Multimedia(MultimediaFunction::NextTrack),
        ButtonBinding::Multimedia(MultimediaFunction::PreviousTrack),
        ButtonBinding::Multimedia(MultimediaFunction::MuteVolume),
        ButtonBinding::Multimedia(MultimediaFunction::VolumeUp),
        ButtonBinding::Multimedia(MultimediaFunction::VolumeDown),
        ButtonBinding::WindowsShortcut(WindowsShortcut::CycleApps),
        ButtonBinding::WindowsShortcut(WindowsShortcut::SwitchApps),
        ButtonBinding::WindowsShortcut(WindowsShortcut::Cut),
        ButtonBinding::WindowsShortcut(WindowsShortcut::Copy),
        ButtonBinding::WindowsShortcut(WindowsShortcut::Paste),
        ButtonBinding::WindowsShortcut(WindowsShortcut::Undo),
        ButtonBinding::Disabled,
    ];

    for binding in bindings {
        profile
            .set_button_binding(PulsefireRaidControl::Button5, &binding)
            .unwrap();
        assert_eq!(
            profile.button_binding(PulsefireRaidControl::Button5).unwrap(),
            binding
        );
    }
}

#[test]
fn rejects_unconfirmed_or_illegal_button_bindings_without_mutating() {
    let original = captured_button_profile();
    let mut profile = PerformanceProfile::parse(&original).unwrap();

    let disabled = ButtonBinding::Disabled;
    assert_eq!(
        profile.set_button_binding(PulsefireRaidControl::LeftClick, &disabled),
        Err(PerformanceProfileError::ButtonBindingNotAllowed {
            control: PulsefireRaidControl::LeftClick,
            binding: disabled,
        })
    );
    assert_eq!(profile.as_bytes(), &original);

    for usage in [0, 0x100] {
        assert_eq!(
            profile.set_button_binding(
                PulsefireRaidControl::Button5,
                &ButtonBinding::Keyboard(KeyboardUsage(usage)),
            ),
            Err(PerformanceProfileError::KeyboardUsageOutOfRange(usage))
        );
        assert_eq!(profile.as_bytes(), &original);
    }

    let macro_binding = ButtonBinding::Macro(MacroBinding {
        id: "capture-required".to_owned(),
        playback: MacroPlayback::Once,
    });
    assert_eq!(
        profile.set_button_binding(PulsefireRaidControl::Button5, &macro_binding),
        Err(PerformanceProfileError::UnconfirmedButtonBinding(macro_binding))
    );
    assert_eq!(profile.as_bytes(), &original);
}

#[test]
fn reports_unknown_button_records_without_guessing() {
    let mut report = captured_button_profile();
    report[0x8C..0x90].copy_from_slice(&[0xFF, 0xEE, 0xDD, 0xCC]);
    let profile = PerformanceProfile::parse(&report).unwrap();

    assert_eq!(
        profile.button_binding(PulsefireRaidControl::Button5),
        Err(PerformanceProfileError::UnknownButtonBinding {
            control: PulsefireRaidControl::Button5,
            record: [0xFF, 0xEE, 0xDD, 0xCC],
        })
    );
}

#[test]
fn decodes_all_five_captured_dpi_stages() {
    let report = captured_five_stage_profile();
    let profile = PerformanceProfile::parse(&report).unwrap();
    let dpi = profile.dpi_profile().unwrap();

    assert_eq!(dpi.stages.len(), 5);
    assert_eq!(dpi.active_stage, 0);
    assert_eq!(
        dpi.stages,
        vec![
            DpiStage::new(1000, 1000, RgbColor::new(0x2B, 0x00, 0xFF)),
            DpiStage::new(1600, 1600, RgbColor::new(0xCD, 0x00, 0xFF)),
            DpiStage::new(3200, 3200, RgbColor::new(0x32, 0xFF, 0x00)),
            DpiStage::new(6400, 6400, RgbColor::new(0xFF, 0x00, 0x00)),
            DpiStage::new(16_000, 16_000, RgbColor::new(0xFF, 0xFF, 0xFF)),
        ]
    );
    assert_eq!(dpi.active(), dpi.stages.first());
}

#[test]
fn offline_stage_two_patch_matches_forward_and_reverse_captures() {
    let original = captured_five_stage_profile();
    let mut profile = PerformanceProfile::parse(&original).unwrap();
    let mut dpi = profile.dpi_profile().unwrap();
    dpi.stages[1].x = 1700;
    dpi.stages[1].y = 1700;
    dpi.active_stage = 1;

    profile.set_dpi_profile(&dpi).unwrap();

    assert_eq!(
        changed_offsets(&original, profile.as_bytes()),
        vec![0x1C, 0x28, 0x31]
    );
    assert_eq!(profile.as_bytes()[0x1C], 0x22);
    assert_eq!(profile.as_bytes()[0x28], 0x22);
    assert_eq!(profile.as_bytes()[0x31], 0x01);

    dpi.stages[1].x = 1600;
    dpi.stages[1].y = 1600;
    dpi.active_stage = 0;
    profile.set_dpi_profile(&dpi).unwrap();
    assert_eq!(profile.as_bytes(), &original);
}

#[test]
fn offline_removal_of_fifth_stage_matches_capture() {
    let original = captured_five_stage_profile();
    let mut profile = PerformanceProfile::parse(&original).unwrap();
    let mut dpi = profile.dpi_profile().unwrap();
    dpi.stages.pop();

    profile.set_dpi_profile(&dpi).unwrap();

    assert_eq!(
        changed_offsets(&original, profile.as_bytes()),
        vec![0x21, 0x22, 0x2D, 0x2E, 0x36, 0x75, 0x76, 0x77]
    );
    assert!(profile.as_bytes()[0x21..0x23]
        .iter()
        .chain(&profile.as_bytes()[0x2D..0x2F])
        .chain(&profile.as_bytes()[0x36..0x37])
        .chain(&profile.as_bytes()[0x75..0x78])
        .all(|byte| *byte == 0));
}

#[test]
fn offline_profile_patch_validates_every_value_before_mutating() {
    let original = captured_five_stage_profile();
    let mut profile = PerformanceProfile::parse(&original).unwrap();
    let mut dpi = profile.dpi_profile().unwrap();
    dpi.stages[2].x = 1625;

    assert_eq!(
        profile.set_dpi_profile(&dpi),
        Err(PerformanceProfileError::DpiNotStepAligned {
            stage: 3,
            axis: DpiAxis::X,
            dpi: 1625,
        })
    );
    assert_eq!(profile.as_bytes(), &original);

    dpi.stages[2].x = 16_050;
    assert_eq!(
        profile.set_dpi_profile(&dpi),
        Err(PerformanceProfileError::DpiOutOfRange {
            stage: 3,
            axis: DpiAxis::X,
            dpi: 16_050,
        })
    );
    assert_eq!(profile.as_bytes(), &original);

    dpi.stages[2].x = 150;
    assert_eq!(
        profile.set_dpi_profile(&dpi),
        Err(PerformanceProfileError::DpiOutOfRange {
            stage: 3,
            axis: DpiAxis::X,
            dpi: 150,
        })
    );
    assert_eq!(profile.as_bytes(), &original);

    dpi.stages[2].x = 200;
    profile.set_dpi_profile(&dpi).unwrap();
    assert_eq!(&profile.as_bytes()[0x1D..0x1F], &[0x00, 0x04]);
}

#[test]
fn offline_profile_patch_validates_stage_count_and_active_index() {
    let original = captured_five_stage_profile();
    let mut profile = PerformanceProfile::parse(&original).unwrap();
    let mut dpi = profile.dpi_profile().unwrap();
    dpi.stages.clear();
    assert_eq!(
        profile.set_dpi_profile(&dpi),
        Err(PerformanceProfileError::InvalidDpiStageCount(0))
    );

    dpi.stages.push(DpiStage::new(800, 800, RgbColor::black()));
    dpi.active_stage = 1;
    assert_eq!(
        profile.set_dpi_profile(&dpi),
        Err(PerformanceProfileError::InvalidActiveDpiStage {
            active: 1,
            stage_count: 1,
        })
    );
    assert_eq!(profile.as_bytes(), &original);
}

#[test]
fn write_report_changes_only_the_confirmed_opcode() {
    let original = captured_five_stage_profile();
    let profile = PerformanceProfile::parse(&original).unwrap();
    let write_report = profile.to_write_report();

    assert_eq!(changed_offsets(&original, &write_report), vec![0x01]);
    assert_eq!(&write_report[..3], &[0x07, 0x01, 0x04]);
}

#[test]
fn validates_dpi_stage_flags_and_active_index() {
    let mut report = profile_fixture(ProfileImageKind::HostWrite, ProfileSection::Runtime);
    report[DPI_STAGE_ENABLED_OFFSETS[1]] = 0;
    assert_eq!(
        PerformanceProfile::parse(&report).unwrap().dpi_profile(),
        Err(PerformanceProfileError::NonContiguousDpiStages { stage: 3 })
    );

    let mut report = profile_fixture(ProfileImageKind::HostWrite, ProfileSection::Runtime);
    report[DPI_STAGE_ENABLED_OFFSETS[1]] = 0x02;
    assert_eq!(
        PerformanceProfile::parse(&report).unwrap().dpi_profile(),
        Err(PerformanceProfileError::InvalidDpiStageFlag {
            stage: 2,
            value: 0x02,
        })
    );

    let mut report = profile_fixture(ProfileImageKind::HostWrite, ProfileSection::Runtime);
    report[ACTIVE_DPI_STAGE_OFFSET] = 3;
    assert_eq!(
        PerformanceProfile::parse(&report).unwrap().dpi_profile(),
        Err(PerformanceProfileError::InvalidActiveDpiStage {
            active: 3,
            stage_count: 3,
        })
    );

    let mut report = profile_fixture(ProfileImageKind::HostWrite, ProfileSection::Runtime);
    for offset in DPI_STAGE_ENABLED_OFFSETS {
        report[offset] = 0;
    }
    assert_eq!(
        PerformanceProfile::parse(&report).unwrap().dpi_profile(),
        Err(PerformanceProfileError::NoEnabledDpiStages)
    );
}

#[test]
fn rejects_non_profile_reports_and_unknown_polling_codes() {
    assert_eq!(
        PerformanceProfile::parse(&[0; 10]),
        Err(PerformanceProfileError::WrongLength(10))
    );

    let mut report = profile_fixture(ProfileImageKind::HostWrite, ProfileSection::Runtime);
    report[0] = 0x06;
    assert_eq!(
        PerformanceProfile::parse(&report),
        Err(PerformanceProfileError::WrongReportId(0x06))
    );

    let mut report = profile_fixture(ProfileImageKind::HostWrite, ProfileSection::Runtime);
    report[1] = 0x10;
    assert_eq!(
        PerformanceProfile::parse(&report),
        Err(PerformanceProfileError::UnsupportedOpcode(0x10))
    );

    let mut report = profile_fixture(ProfileImageKind::HostWrite, ProfileSection::Runtime);
    report[2] = 0x03;
    assert_eq!(
        PerformanceProfile::parse(&report),
        Err(PerformanceProfileError::UnsupportedSection(0x03))
    );

    let mut report = profile_fixture(ProfileImageKind::HostWrite, ProfileSection::Runtime);
    report[POLLING_INTERVAL_OFFSET] = 0x03;
    let profile = PerformanceProfile::parse(&report).unwrap();
    assert_eq!(
        profile.polling_rate(),
        Err(PerformanceProfileError::UnknownPollingInterval(0x03))
    );
}

#[test]
fn control_names_and_offsets_follow_the_button_editor() {
    let controls = PulsefireRaidControl::all();
    assert_eq!(controls.len(), 11);
    assert_eq!(controls[0].name(), "Left click");
    assert_eq!(PulsefireRaidControl::Dpi.name(), "DPI button");
    assert_eq!(PulsefireRaidControl::LeftClick.profile_offset(), 0x7C);
    assert_eq!(PulsefireRaidControl::WheelTiltRight.profile_offset(), 0xA4);
    assert!(PulsefireRaidControl::RightClick.is_primary_click());
    assert!(!PulsefireRaidControl::MiddleClick.is_primary_click());
}

#[test]
fn polling_then_dpi_round_trip_on_a_profile() {
    let mut profile = PerformanceProfile::parse(&captured_five_stage_profile()).unwrap();
    for rate in [
        PollingRate::Hz125,
        PollingRate::Hz250,
        PollingRate::Hz500,
        PollingRate::Hz1000,
    ] {
        profile.set_polling_rate(rate);
        assert_eq!(profile.polling_rate(), Ok(rate));
    }
    let dpi = DpiProfile {
        stages: vec![
            DpiStage::new(400, 450, RgbColor::new(1, 2, 3)),
            DpiStage::new(12_000, 200, RgbColor::new(4, 5, 6)),
        ],
        active_stage: 1,
    };
    profile.set_dpi_profile(&dpi).unwrap();
    assert_eq!(profile.dpi_profile(), Ok(dpi));
}

use hyperx::button::{
    ButtonBinding, KeyboardUsage, MacroDefinition, MacroEvent, MacroPlayback, MouseFunction,
    MultimediaFunction, PrimaryButtonLayout, WindowsShortcut,
};
use hyperx::capability::{DpiValidationError, PollingRate};
use hyperx::color::RgbColor;
use hyperx::driver::{
    save_acknowledgement, PulsefireRaid, PulsefireRaidError, PulsefireRaidRuntimeAssignment,
    ONBOARD_COMMIT_DELAY_MS, PROFILE_PRELUDE_DELAY_MS, PROFILE_READ_DELAY_MS,
};
use hyperx::hid::MockHidTransport;
use hyperx::pulsefire_raid::{
    encode_onboard_profile_read_prelude, encode_onboard_static_lighting_reports,
    encode_profile_read_request, encode_runtime_profile_read_prelude, PerformanceProfile,
    PerformanceProfileError, ProfileImageKind, ProfileSection, PulsefireRaidControl,
    DIRECT_REPORT_LENGTH,
};
use hyperx::registry::{pulsefire_raid, pulsefire_raid_dpi};

fn captured_ab_macro() -> MacroDefinition {
    MacroDefinition {
        playback: MacroPlayback::Once,
        events: ["a", "b"]
            .into_iter()
            .flat_map(|key| {
                [
                    MacroEvent::KeyDown {
                        key: key.to_owned(),
                        delay_ms: 20,
                    },
                    MacroEvent::KeyUp {
                        key: key.to_owned(),
                        delay_ms: 20,
                    },
                ]
            })
            .collect(),
    }
}

fn key_down(key: &str, delay_ms: u16) -> MacroEvent {
    MacroEvent::KeyDown {
        key: key.to_owned(),
        delay_ms,
    }
}

fn key_up(key: &str, delay_ms: u16) -> MacroEvent {
    MacroEvent::KeyUp {
        key: key.to_owned(),
        delay_ms,
    }
}

fn mouse_down(button: &str, delay_ms: u16) -> MacroEvent {
    MacroEvent::MouseButtonDown {
        button: button.to_owned(),
        delay_ms,
    }
}

fn mouse_up(button: &str, delay_ms: u16) -> MacroEvent {
    MacroEvent::MouseButtonUp {
        button: button.to_owned(),
        delay_ms,
    }
}

fn captured_coverage_macro() -> MacroDefinition {
    MacroDefinition {
        playback: MacroPlayback::Once,
        events: vec![
            key_down("left-shift", 20),
            key_down("a", 953),
            key_up("a", 141),
            key_up("left-shift", 766),
            key_down("left-control", 1171),
            key_down("b", 1110),
            key_up("b", 344),
            key_up("left-control", 453),
            mouse_down("left", 1890),
            mouse_up("left", 110),
            mouse_down("right", 1203),
            mouse_up("right", 94),
            mouse_down("middle", 718),
            mouse_up("middle", 172),
        ],
    }
}

fn performance_profile_response() -> [u8; DIRECT_REPORT_LENGTH] {
    let mut response = [0_u8; DIRECT_REPORT_LENGTH];
    response[..3].copy_from_slice(&[0x07, 0x81, 0x04]);
    response[0x18] = 0x02;
    response[0x19..0x1B].copy_from_slice(&[0x00, 0x10]);
    response[0x25..0x27].copy_from_slice(&[0x00, 0x10]);
    response[0x32] = 0x01;
    response[0x69..0x6C].copy_from_slice(&[0x2B, 0x00, 0xFF]);
    response
}

fn save_profile_response(section: ProfileSection, with_macro: bool) -> [u8; DIRECT_REPORT_LENGTH] {
    let mut response = performance_profile_response();
    response[2] = match section {
        ProfileSection::Onboard => 0x01,
        ProfileSection::Runtime => 0x04,
    };
    response[0x7C..0xA8].copy_from_slice(&[
        0x02, 0xF0, 0x00, 0x00, // left click
        0x02, 0xF2, 0x00, 0x00, // right click
        0x02, 0xF1, 0x00, 0x00, // middle click
        0x02, 0xF8, 0x00, 0x03, // Button 4: Back
        0x02, 0xF9, 0x00, 0x04, // Button 5: Forward
        0x04, 0x00, 0x00, 0xE9, // Button 7: Volume Up
        0x04, 0x00, 0x00, 0xEA, // Button 6: Volume Down
        0x04, 0x00, 0x00, 0xE2, // Button 8: Mute
        0x71, 0xF0, 0x00, 0x00, // DPI toggle
        0x02, 0xF5, 0x00, 0x00, // wheel tilt left
        0x02, 0xF6, 0x00, 0x00, // wheel tilt right
    ]);
    if with_macro {
        response[0x8C..0x90].copy_from_slice(&[0x53, 0x00, 0x00, 0x04]);
    }
    response
}

fn two_stage_profile_response() -> [u8; DIRECT_REPORT_LENGTH] {
    let mut response = performance_profile_response();
    response[0x1B..0x1D].copy_from_slice(&[0x00, 0x20]);
    response[0x27..0x29].copy_from_slice(&[0x00, 0x20]);
    response[0x33] = 0x01;
    response[0x6C..0x6F].copy_from_slice(&[0xCD, 0x00, 0xFF]);
    response
}

fn five_stage_profile_response() -> [u8; DIRECT_REPORT_LENGTH] {
    let mut response = performance_profile_response();
    response[0x1B..0x23].copy_from_slice(&[0x00, 0x20, 0x00, 0x40, 0x00, 0x80, 0x01, 0x40]);
    response[0x27..0x2F].copy_from_slice(&[0x00, 0x20, 0x00, 0x40, 0x00, 0x80, 0x01, 0x40]);
    response[0x32..0x37].fill(0x01);
    response
}

fn scripted_read(response: &[u8]) -> MockHidTransport {
    let mut transport = MockHidTransport::new(1);
    transport.expect_feature_report(&encode_runtime_profile_read_prelude());
    transport.expect_feature_report(&encode_profile_read_request());
    transport.queue_feature_response(response);
    transport
}

fn assert_assignment_written(
    response: [u8; DIRECT_REPORT_LENGTH],
    expected_write: [u8; DIRECT_REPORT_LENGTH],
    control: PulsefireRaidControl,
    binding: ButtonBinding,
) {
    let mut transport = scripted_read(&response);
    transport.expect_feature_report(&expected_write);

    let assignment = PulsefireRaidRuntimeAssignment::ordinary(control, binding).unwrap();
    let mut device = PulsefireRaid::new(transport).unwrap();
    assert_eq!(
        device
            .set_runtime_button_assignment_with_wait(assignment.clone(), |_| {})
            .unwrap(),
        assignment
    );
    device.into_transport().assert_drained().unwrap();
}

#[test]
fn configuration_collection_matches_openrgb_detector() {
    let raid = pulsefire_raid();
    assert_eq!(raid.configuration_interface.interface_number, 1);
    assert_eq!(raid.configuration_interface.usage_page, 0xFF01);
    assert_eq!(raid.configuration_interface.usage, 0x0001);
    assert_eq!(raid.capabilities.dpi, Some(pulsefire_raid_dpi()));
    assert_eq!(
        raid.capabilities.polling_rates,
        &[
            PollingRate::Hz125,
            PollingRate::Hz250,
            PollingRate::Hz500,
            PollingRate::Hz1000,
        ]
    );
}

#[test]
fn driver_sends_exact_direct_rgb_feature_report() {
    let mut expected = [0_u8; DIRECT_REPORT_LENGTH];
    expected[..9].copy_from_slice(&[0x07, 0x0A, 0xFF, 0x80, 0x01, 0x02, 0x40, 0xFE, 0xA0]);
    let mut transport = MockHidTransport::new(1);
    transport.expect_feature_report(&expected);

    let mut device = PulsefireRaid::new(transport).unwrap();
    let mut waits = Vec::new();
    device
        .set_volatile_direct_rgb_with_wait(
            RgbColor::new(0xFF, 0x80, 0x01),
            RgbColor::new(0x02, 0x40, 0xFE),
            |ms| waits.push(ms),
        )
        .unwrap();
    assert_eq!(waits, [10]);
    device.into_transport().assert_drained().unwrap();
}

#[test]
fn driver_reads_runtime_profile_with_exact_sequence_and_timing() {
    let prelude = encode_runtime_profile_read_prelude();
    let request = encode_profile_read_request();
    let mut response = [0_u8; DIRECT_REPORT_LENGTH];
    response[..3].copy_from_slice(&[0x07, 0x81, 0x04]);

    let mut transport = MockHidTransport::new(1);
    transport.expect_feature_report(&prelude);
    transport.expect_feature_report(&request);
    transport.queue_feature_response(&response);

    let mut device = PulsefireRaid::new(transport).unwrap();
    let mut waits = Vec::new();
    let profile = device
        .runtime_profile_with_wait(|duration| waits.push(duration))
        .unwrap();

    assert_eq!(profile.kind(), ProfileImageKind::DeviceReadResponse);
    assert_eq!(profile.section(), ProfileSection::Runtime);
    assert_eq!(waits, [PROFILE_PRELUDE_DELAY_MS, PROFILE_READ_DELAY_MS]);
    device.into_transport().assert_drained().unwrap();
}

#[test]
fn driver_changes_only_active_dpi_fields_and_write_opcode() {
    let response = performance_profile_response();
    let mut expected_write = response;
    expected_write[1] = 0x01;
    expected_write[0x19..0x1B].copy_from_slice(&[0x00, 0x12]);
    expected_write[0x25..0x27].copy_from_slice(&[0x00, 0x12]);

    let mut transport = scripted_read(&response);
    transport.expect_feature_report(&expected_write);

    let mut device = PulsefireRaid::new(transport).unwrap();
    let dpi_profile = device
        .set_runtime_active_dpi_with_wait(900, |_| {})
        .unwrap();

    assert_eq!(dpi_profile.active().unwrap().x, 900);
    assert_eq!(dpi_profile.active().unwrap().y, 900);
    device.into_transport().assert_drained().unwrap();
}

#[test]
fn driver_rejects_invalid_dpi_before_any_hid_io() {
    let transport = MockHidTransport::new(1);
    let mut device = PulsefireRaid::new(transport).unwrap();

    assert!(matches!(
        device.set_runtime_active_dpi_with_wait(225, |_| {}),
        Err(PulsefireRaidError::InvalidDpi(DpiValidationError::NotStepAligned { dpi: 225, .. }))
    ));
    device.into_transport().assert_drained().unwrap();
}

#[test]
fn driver_updates_one_dpi_stage_and_preserves_other_fields() {
    let response = two_stage_profile_response();
    let mut expected_write = response;
    expected_write[1] = 0x01;
    expected_write[0x1B..0x1D].copy_from_slice(&[0x00, 0x22]);
    expected_write[0x27..0x29].copy_from_slice(&[0x00, 0x22]);
    expected_write[0x31] = 0x01;
    expected_write[0x6C..0x6F].copy_from_slice(&[0x01, 0x02, 0x03]);

    let mut transport = scripted_read(&response);
    transport.expect_feature_report(&expected_write);

    let mut device = PulsefireRaid::new(transport).unwrap();
    let dpi_profile = device
        .set_runtime_dpi_stage_with_wait(1, Some(1700), Some(RgbColor::new(1, 2, 3)), true, |_| {})
        .unwrap();

    assert_eq!(dpi_profile.active_stage, 1);
    assert_eq!(dpi_profile.stages[1].x, 1700);
    assert_eq!(dpi_profile.stages[1].y, 1700);
    assert_eq!(dpi_profile.stages[1].color, RgbColor::new(1, 2, 3));
    device.into_transport().assert_drained().unwrap();
}

#[test]
fn driver_adds_a_contiguous_dpi_stage() {
    let response = performance_profile_response();
    let mut expected_write = response;
    expected_write[1] = 0x01;
    expected_write[0x1B..0x1D].copy_from_slice(&[0x00, 0x20]);
    expected_write[0x27..0x29].copy_from_slice(&[0x00, 0x20]);
    expected_write[0x31] = 0x01;
    expected_write[0x33] = 0x01;
    expected_write[0x6C..0x6F].copy_from_slice(&[0xFF, 0x00, 0x00]);

    let mut transport = scripted_read(&response);
    transport.expect_feature_report(&expected_write);

    let mut device = PulsefireRaid::new(transport).unwrap();
    let dpi_profile = device
        .add_runtime_dpi_stage_with_wait(1600, RgbColor::new(0xFF, 0, 0), true, |_| {})
        .unwrap();

    assert_eq!(dpi_profile.stages.len(), 2);
    assert_eq!(dpi_profile.active_stage, 1);
    device.into_transport().assert_drained().unwrap();
}

#[test]
fn driver_removes_and_clears_only_the_final_dpi_stage() {
    let mut response = two_stage_profile_response();
    response[0x31] = 0x01;
    let mut expected_write = response;
    expected_write[1] = 0x01;
    expected_write[0x1B..0x1D].fill(0);
    expected_write[0x27..0x29].fill(0);
    expected_write[0x31] = 0x00;
    expected_write[0x33] = 0x00;
    expected_write[0x6C..0x6F].fill(0);

    let mut transport = scripted_read(&response);
    transport.expect_feature_report(&expected_write);

    let mut device = PulsefireRaid::new(transport).unwrap();
    let dpi_profile = device
        .remove_runtime_last_dpi_stage_with_wait(|_| {})
        .unwrap();

    assert_eq!(dpi_profile.stages.len(), 1);
    assert_eq!(dpi_profile.active_stage, 0);
    device.into_transport().assert_drained().unwrap();
}

#[test]
fn driver_rejects_missing_or_empty_dpi_stage_updates() {
    let transport = MockHidTransport::new(1);
    let mut device = PulsefireRaid::new(transport).unwrap();
    assert!(matches!(
        device.set_runtime_dpi_stage_with_wait(0, None, None, false, |_| {}),
        Err(PulsefireRaidError::EmptyDpiStageUpdate)
    ));
    device.into_transport().assert_drained().unwrap();

    let response = performance_profile_response();
    let transport = scripted_read(&response);
    let mut device = PulsefireRaid::new(transport).unwrap();
    assert!(matches!(
        device.set_runtime_dpi_stage_with_wait(1, Some(1600), None, false, |_| {}),
        Err(PulsefireRaidError::DpiStageNotFound {
            stage: 2,
            stage_count: 1
        })
    ));
    device.into_transport().assert_drained().unwrap();
}

#[test]
fn driver_rejects_stage_count_overflow_and_removing_the_only_stage() {
    let response = five_stage_profile_response();
    let transport = scripted_read(&response);
    let mut device = PulsefireRaid::new(transport).unwrap();
    assert!(matches!(
        device.add_runtime_dpi_stage_with_wait(16000, RgbColor::black(), false, |_| {}),
        Err(PulsefireRaidError::TooManyDpiStages(5))
    ));
    device.into_transport().assert_drained().unwrap();

    let response = performance_profile_response();
    let transport = scripted_read(&response);
    let mut device = PulsefireRaid::new(transport).unwrap();
    assert!(matches!(
        device.remove_runtime_last_dpi_stage_with_wait(|_| {}),
        Err(PulsefireRaidError::CannotRemoveOnlyDpiStage)
    ));
    device.into_transport().assert_drained().unwrap();
}

#[test]
fn driver_selects_an_existing_stage_as_active() {
    let response = two_stage_profile_response();
    let mut expected_write = response;
    expected_write[1] = 0x01;
    expected_write[0x31] = 0x01;

    let mut transport = scripted_read(&response);
    transport.expect_feature_report(&expected_write);
    let mut device = PulsefireRaid::new(transport).unwrap();
    let dpi_profile = device
        .set_runtime_active_dpi_stage(1, |_| {})
        .unwrap();
    assert_eq!(dpi_profile.active_stage, 1);
    device.into_transport().assert_drained().unwrap();
}

#[test]
fn driver_writes_only_the_captured_button5_record_for_an_ordinary_assignment() {
    let mut response = performance_profile_response();
    response[0x8C..0x90].copy_from_slice(&[0x53, 0x00, 0x00, 0x04]);
    let mut expected_write = response;
    expected_write[1] = 0x01;
    expected_write[0x8C..0x90].copy_from_slice(&[0x02, 0xF9, 0x00, 0x04]);

    assert_assignment_written(
        response,
        expected_write,
        PulsefireRaidControl::Button5,
        ButtonBinding::Mouse(MouseFunction::Forward),
    );
}

#[test]
fn driver_swaps_primary_buttons_as_one_runtime_profile_write() {
    let mut response = performance_profile_response();
    response[0x7C..0x84].copy_from_slice(&[
        0x02, 0xF0, 0x00, 0x00, // physical left: Left Click
        0x02, 0xF2, 0x00, 0x02, // physical right: Right Click
    ]);
    let mut expected_write = response;
    expected_write[1] = 0x01;
    expected_write[0x7C..0x84].copy_from_slice(&[
        0x02, 0xF2, 0x00, 0x02, // physical left: Right Click
        0x02, 0xF0, 0x00, 0x00, // physical right: Left Click
    ]);

    let mut transport = scripted_read(&response);
    transport.expect_feature_report(&expected_write);

    let mut device = PulsefireRaid::new(transport).unwrap();
    assert_eq!(
        device
            .set_runtime_primary_button_layout_with_wait(PrimaryButtonLayout::Swapped, |_| {})
            .unwrap(),
        PrimaryButtonLayout::Swapped
    );
    device.into_transport().assert_drained().unwrap();
}

#[test]
fn driver_writes_only_the_captured_button4_scroll_up_record() {
    let mut response = performance_profile_response();
    response[0x88..0x8C].copy_from_slice(&[0x02, 0xF8, 0x00, 0x03]);
    assert_eq!(&response[0x88..0x8C], &[0x02, 0xF8, 0x00, 0x03]);
    let mut expected_write = response;
    expected_write[1] = 0x01;
    expected_write[0x88..0x8C].copy_from_slice(&[0x02, 0xF4, 0x00, 0x00]);

    assert_assignment_written(
        response,
        expected_write,
        PulsefireRaidControl::Button4,
        ButtonBinding::Mouse(MouseFunction::ScrollUp),
    );
}

#[test]
fn driver_writes_only_the_captured_button4_play_pause_record() {
    let mut response = performance_profile_response();
    response[0x88..0x8C].copy_from_slice(&[0x02, 0xF8, 0x00, 0x03]);
    let mut expected_write = response;
    expected_write[1] = 0x01;
    expected_write[0x88..0x8C].copy_from_slice(&[0x04, 0x00, 0x00, 0xCD]);

    assert_assignment_written(
        response,
        expected_write,
        PulsefireRaidControl::Button4,
        ButtonBinding::Multimedia(MultimediaFunction::PlayPause),
    );
}

#[test]
fn driver_writes_only_the_captured_button4_cycle_apps_record() {
    let mut response = performance_profile_response();
    response[0x88..0x8C].copy_from_slice(&[0x02, 0xF8, 0x00, 0x03]);
    let mut expected_write = response;
    expected_write[1] = 0x01;
    expected_write[0x88..0x8C].copy_from_slice(&[0x23, 0xE3, 0x2B, 0x00]);

    assert_assignment_written(
        response,
        expected_write,
        PulsefireRaidControl::Button4,
        ButtonBinding::WindowsShortcut(WindowsShortcut::CycleApps),
    );
}

#[test]
fn driver_writes_only_the_captured_dpi_control_record() {
    let mut response = performance_profile_response();
    response[0x9C..0xA0].copy_from_slice(&[0x00, 0x04, 0x00, 0x00]);
    let mut expected_write = response;
    expected_write[1] = 0x01;
    expected_write[0x9C..0xA0].copy_from_slice(&[0x71, 0xF0, 0x00, 0x00]);

    assert_assignment_written(
        response,
        expected_write,
        PulsefireRaidControl::Dpi,
        ButtonBinding::Mouse(MouseFunction::DpiToggle),
    );
}

#[test]
fn driver_writes_only_the_captured_button7_record() {
    let mut response = performance_profile_response();
    response[0x90..0x94].copy_from_slice(&[0x04, 0x00, 0x00, 0xE9]);
    let mut expected_write = response;
    expected_write[1] = 0x01;
    expected_write[0x90..0x94].copy_from_slice(&[0x04, 0x00, 0x00, 0xEA]);

    assert_assignment_written(
        response,
        expected_write,
        PulsefireRaidControl::Button7,
        ButtonBinding::Multimedia(MultimediaFunction::VolumeDown),
    );
}

#[test]
fn driver_applies_a_portable_record_to_another_general_control() {
    let mut response = performance_profile_response();
    response[0x94..0x98].copy_from_slice(&[0x04, 0x00, 0x00, 0xEA]);
    let mut expected_write = response;
    expected_write[1] = 0x01;
    expected_write[0x94..0x98].copy_from_slice(&[0x02, 0xF8, 0x00, 0x03]);

    assert_assignment_written(
        response,
        expected_write,
        PulsefireRaidControl::Button6,
        ButtonBinding::Mouse(MouseFunction::Back),
    );
}

#[test]
fn driver_sends_captured_chord_mouse_macro_before_its_button5_profile_reference() {
    let mut response = performance_profile_response();
    response[0x8C..0x90].copy_from_slice(&[0x02, 0xF9, 0x00, 0x04]);

    let mut expected_macro = [0_u8; DIRECT_REPORT_LENGTH];
    expected_macro[..52].copy_from_slice(&[
        0x07, 0x05, 0x04, 0x04, 0x00, 0x00, 0x00, 0x00, 0x00, 0x01, 0x80, 0x14, 0xE1, 0x83, 0xB9,
        0x04, 0x00, 0x8D, 0x04, 0x02, 0xFE, 0xE1, 0x84, 0x93, 0xE0, 0x84, 0x56, 0x05, 0x01, 0x58,
        0x05, 0x01, 0xC5, 0xE0, 0x87, 0x62, 0xB7, 0x00, 0x6E, 0xB7, 0x84, 0xB3, 0xB8, 0x00, 0x5E,
        0xB8, 0x82, 0xCE, 0xB9, 0x00, 0xAC, 0xB9,
    ]);
    let mut expected_write = response;
    expected_write[1] = 0x01;
    expected_write[0x8C..0x90].copy_from_slice(&[0x53, 0x00, 0x00, 0x04]);

    let mut transport = scripted_read(&response);
    transport.expect_feature_report(&expected_macro);
    transport.expect_feature_report(&expected_write);

    let assignment = PulsefireRaidRuntimeAssignment::macro_timeline(
        PulsefireRaidControl::Button5,
        captured_coverage_macro(),
    )
    .unwrap();
    let mut device = PulsefireRaid::new(transport).unwrap();
    assert_eq!(
        device
            .set_runtime_button_assignment_with_wait(assignment.clone(), |_| {})
            .unwrap(),
        assignment
    );
    device.into_transport().assert_drained().unwrap();
}

#[test]
fn driver_sends_captured_button4_ab_macro_without_changing_button5() {
    let response = save_profile_response(ProfileSection::Runtime, true);
    let mut expected_macro = [0_u8; DIRECT_REPORT_LENGTH];
    expected_macro[..22].copy_from_slice(&[
        0x07, 0x05, 0x04, 0x03, 0x00, 0x00, 0x00, 0x00, 0x00, 0x01, 0x80, 0x14, 0x04, 0x00, 0x14,
        0x04, 0x80, 0x14, 0x05, 0x00, 0x14, 0x05,
    ]);
    let mut expected_write = response;
    expected_write[1] = 0x01;
    expected_write[0x88..0x8C].copy_from_slice(&[0x53, 0x00, 0x00, 0x03]);
    assert_eq!(&expected_write[0x8C..0x90], &[0x53, 0x00, 0x00, 0x04]);

    let mut transport = scripted_read(&response);
    transport.expect_feature_report(&expected_macro);
    transport.expect_feature_report(&expected_write);

    let assignment = PulsefireRaidRuntimeAssignment::macro_timeline(
        PulsefireRaidControl::Button4,
        captured_ab_macro(),
    )
    .unwrap();
    let mut device = PulsefireRaid::new(transport).unwrap();
    assert_eq!(
        device
            .set_runtime_button_assignment_with_wait(assignment.clone(), |_| {})
            .unwrap(),
        assignment
    );
    device.into_transport().assert_drained().unwrap();
}

#[test]
fn runtime_assignment_gate_separates_portable_and_target_specific_evidence() {
    let general_controls = [
        PulsefireRaidControl::MiddleClick,
        PulsefireRaidControl::Button4,
        PulsefireRaidControl::Button5,
        PulsefireRaidControl::Button7,
        PulsefireRaidControl::Button6,
        PulsefireRaidControl::Button8,
        PulsefireRaidControl::Dpi,
        PulsefireRaidControl::WheelTiltLeft,
        PulsefireRaidControl::WheelTiltRight,
    ];
    let portable_bindings = [
        ButtonBinding::Disabled,
        ButtonBinding::Mouse(MouseFunction::LeftClick),
        ButtonBinding::Mouse(MouseFunction::RightClick),
        ButtonBinding::Mouse(MouseFunction::MiddleClick),
        ButtonBinding::Mouse(MouseFunction::Back),
        ButtonBinding::Mouse(MouseFunction::Forward),
        ButtonBinding::Mouse(MouseFunction::TiltLeft),
        ButtonBinding::Mouse(MouseFunction::TiltRight),
        ButtonBinding::Mouse(MouseFunction::DpiToggle),
        ButtonBinding::Mouse(MouseFunction::ScrollUp),
        ButtonBinding::Mouse(MouseFunction::ScrollDown),
        ButtonBinding::Multimedia(MultimediaFunction::PlayPause),
        ButtonBinding::Multimedia(MultimediaFunction::Stop),
        ButtonBinding::Multimedia(MultimediaFunction::NextTrack),
        ButtonBinding::Multimedia(MultimediaFunction::PreviousTrack),
        ButtonBinding::Multimedia(MultimediaFunction::MuteVolume),
        ButtonBinding::Multimedia(MultimediaFunction::VolumeUp),
        ButtonBinding::Multimedia(MultimediaFunction::VolumeDown),
        ButtonBinding::WindowsShortcut(WindowsShortcut::CycleApps),
        ButtonBinding::WindowsShortcut(WindowsShortcut::SwitchApps),
        ButtonBinding::WindowsShortcut(WindowsShortcut::Cut),
        ButtonBinding::WindowsShortcut(WindowsShortcut::Copy),
        ButtonBinding::WindowsShortcut(WindowsShortcut::Paste),
        ButtonBinding::WindowsShortcut(WindowsShortcut::Undo),
        ButtonBinding::Keyboard(KeyboardUsage(0x04)),
        ButtonBinding::Keyboard(KeyboardUsage(0x05)),
        ButtonBinding::Keyboard(KeyboardUsage(0x2C)),
        ButtonBinding::Keyboard(KeyboardUsage(0xE1)),
    ];
    for control in general_controls {
        for binding in portable_bindings.iter().cloned() {
            assert!(PulsefireRaidRuntimeAssignment::ordinary(control, binding).is_ok());
        }
    }
    for (control, binding) in [
        (PulsefireRaidControl::LeftClick, ButtonBinding::Disabled),
        (
            PulsefireRaidControl::Dpi,
            ButtonBinding::Keyboard(KeyboardUsage(0x74)),
        ),
    ] {
        assert!(matches!(
            PulsefireRaidRuntimeAssignment::ordinary(control, binding),
            Err(PulsefireRaidError::UnconfirmedRuntimeButtonBinding { .. })
        ));
    }

    let macro_assignment = PulsefireRaidRuntimeAssignment::macro_timeline(
        PulsefireRaidControl::Button5,
        captured_coverage_macro(),
    )
    .unwrap();
    assert!(macro_assignment.ordinary_binding().is_none());
    assert!(macro_assignment.encoded_macro().unwrap().is_some());
    assert!(PulsefireRaidRuntimeAssignment::macro_timeline(
        PulsefireRaidControl::Button4,
        captured_ab_macro(),
    )
    .is_ok());
    assert!(matches!(
        PulsefireRaidRuntimeAssignment::macro_timeline(
            PulsefireRaidControl::Dpi,
            captured_coverage_macro(),
        ),
        Err(PulsefireRaidError::UnconfirmedMacroControl(
            PulsefireRaidControl::Dpi
        ))
    ));

    let mut unsupported_playback = captured_coverage_macro();
    unsupported_playback.playback = MacroPlayback::ToggleRepeat;
    assert!(matches!(
        PulsefireRaidRuntimeAssignment::macro_timeline(
            PulsefireRaidControl::Button5,
            unsupported_playback,
        ),
        Err(PulsefireRaidError::UnsupportedMacroPlayback(
            MacroPlayback::ToggleRepeat
        ))
    ));
}

#[test]
fn macro_assignments_reject_unknown_keys_and_mouse_buttons() {
    let mut unknown_key = captured_ab_macro();
    unknown_key.events[0] = key_down("not-a-key", 20);
    assert!(matches!(
        PulsefireRaidRuntimeAssignment::macro_timeline(PulsefireRaidControl::Button5, unknown_key),
        Err(PulsefireRaidError::UnknownMacroKey(key)) if key == "not-a-key"
    ));
    let unknown_button = MacroDefinition {
        playback: MacroPlayback::Once,
        events: vec![mouse_down("back", 20), mouse_up("back", 20)],
    };
    assert!(matches!(
        PulsefireRaidRuntimeAssignment::macro_timeline(
            PulsefireRaidControl::Button5,
            unknown_button
        ),
        Err(PulsefireRaidError::UnknownMacroMouseButton(button)) if button == "back"
    ));
    let assignment = PulsefireRaidRuntimeAssignment::macro_timeline(
        PulsefireRaidControl::Button4,
        captured_ab_macro(),
    )
    .unwrap();
    assert_eq!(assignment.control(), PulsefireRaidControl::Button4);
    assert_eq!(assignment.macro_definition(), Some(&captured_ab_macro()));
}

#[test]
fn driver_changes_only_polling_field_and_write_opcode() {
    let response = performance_profile_response();
    let mut expected_write = response;
    expected_write[1] = 0x01;
    expected_write[0x18] = 0x01;

    let mut transport = scripted_read(&response);
    transport.expect_feature_report(&expected_write);

    let mut device = PulsefireRaid::new(transport).unwrap();
    assert_eq!(
        device
            .set_runtime_polling_rate_with_wait(PollingRate::Hz1000, |_| {})
            .unwrap(),
        PollingRate::Hz1000
    );
    device.into_transport().assert_drained().unwrap();
}

#[test]
fn driver_rejects_a_truncated_profile_response() {
    let transport = scripted_read(&[0x07, 0x81, 0x04]);

    let mut device = PulsefireRaid::new(transport).unwrap();
    let error = device
        .runtime_profile_with_wait(|_| {})
        .expect_err("a truncated profile must be rejected");

    assert!(matches!(
        error,
        PulsefireRaidError::WrongProfileResponseLength(3)
    ));
}

#[test]
fn driver_rejects_the_standard_mouse_interface() {
    let transport = MockHidTransport::new(0);
    assert!(matches!(
        PulsefireRaid::new(transport),
        Err(PulsefireRaidError::WrongInterface(0))
    ));
}

#[test]
fn macro_toml_supports_chords_nonuniform_timings_and_mouse_clicks() {
    let macro_ab = captured_ab_macro();
    assert_eq!(macro_ab.events.len(), 4);
    assert!(
        PulsefireRaidRuntimeAssignment::macro_timeline(PulsefireRaidControl::Button5, macro_ab)
            .is_ok()
    );

    let shift_a = MacroDefinition {
        playback: MacroPlayback::Once,
        events: vec![
            key_down("left-shift", 0),
            key_down("a", 20),
            key_up("a", 0),
            key_up("left-shift", 20),
        ],
    };
    assert_eq!(shift_a.events.len(), 4);
    assert!(
        PulsefireRaidRuntimeAssignment::macro_timeline(PulsefireRaidControl::Button5, shift_a)
            .is_ok()
    );

    let nonuniform = MacroDefinition {
        playback: MacroPlayback::Once,
        events: vec![key_down("a", 20), key_up("a", 40)],
    };
    assert!(PulsefireRaidRuntimeAssignment::macro_timeline(
        PulsefireRaidControl::Button5,
        nonuniform
    )
    .is_ok());

    let mouse_clicks = MacroDefinition {
        playback: MacroPlayback::Once,
        events: vec![mouse_down("left", 25), mouse_up("left", 40)],
    };
    assert!(PulsefireRaidRuntimeAssignment::macro_timeline(
        PulsefireRaidControl::Button5,
        mouse_clicks
    )
    .is_ok());

    let invalid = MacroDefinition {
        playback: MacroPlayback::Once,
        events: vec![key_down("unknown-key", 20)],
    };
    assert!(
        PulsefireRaidRuntimeAssignment::macro_timeline(PulsefireRaidControl::Button5, invalid)
            .is_err()
    );
}

#[test]
fn runtime_transactions_never_select_the_onboard_section() {
    let prelude = encode_runtime_profile_read_prelude();
    let request = encode_profile_read_request();
    assert_eq!((prelude[1], prelude[2]), (0x03, 0x04));
    assert_eq!(request[1], 0x81);

    let response = performance_profile_response();
    let mut expected_write = response;
    expected_write[1] = 0x01;
    expected_write[0x18] = 0x08;
    assert_eq!((expected_write[1], expected_write[2]), (0x01, 0x04));

    let mut transport = scripted_read(&response);
    transport.expect_feature_report(&expected_write);
    let mut device = PulsefireRaid::new(transport).unwrap();
    device
        .set_runtime_polling_rate_with_wait(PollingRate::Hz125, |_| {})
        .unwrap();
    device.into_transport().assert_drained().unwrap();
}

fn expect_acked_feature(
    configuration: &mut MockHidTransport,
    acknowledgements: &mut MockHidTransport,
    report: [u8; DIRECT_REPORT_LENGTH],
) {
    let opcode = report[1];
    configuration.expect_feature_report(&report);
    acknowledgements.queue_input_report(&save_acknowledgement(opcode));
}

fn script_onboard_save(
    configuration: &mut MockHidTransport,
    acknowledgements: &mut MockHidTransport,
    runtime: [u8; DIRECT_REPORT_LENGTH],
    onboard: [u8; DIRECT_REPORT_LENGTH],
    wheel: RgbColor,
    logo: RgbColor,
    macro_definition: Option<&MacroDefinition>,
) {
    expect_acked_feature(configuration, acknowledgements, encode_runtime_profile_read_prelude());
    expect_acked_feature(configuration, acknowledgements, encode_profile_read_request());
    configuration.queue_feature_response(&runtime);

    expect_acked_feature(configuration, acknowledgements, encode_onboard_profile_read_prelude());
    for report in encode_onboard_static_lighting_reports(wheel, logo) {
        expect_acked_feature(configuration, acknowledgements, report);
    }
    expect_acked_feature(configuration, acknowledgements, encode_profile_read_request());
    configuration.queue_feature_response(&onboard);

    let runtime_profile = PerformanceProfile::parse(&runtime).unwrap();
    let mut onboard_profile = PerformanceProfile::parse(&onboard).unwrap();
    onboard_profile
        .copy_confirmed_runtime_settings_from(&runtime_profile)
        .unwrap();
    if let Some(definition) = macro_definition {
        let macro_report = PulsefireRaidRuntimeAssignment::macro_timeline(
            PulsefireRaidControl::Button5,
            definition.clone(),
        )
        .unwrap()
        .encoded_macro()
        .unwrap()
        .unwrap();
        expect_acked_feature(configuration, acknowledgements, macro_report.to_onboard_report());
    }
    expect_acked_feature(configuration, acknowledgements, onboard_profile.to_write_report());
    expect_acked_feature(configuration, acknowledgements, encode_runtime_profile_read_prelude());
}

#[test]
fn driver_saves_confirmed_runtime_fields_with_exact_acked_sequence() {
    let runtime = save_profile_response(ProfileSection::Runtime, false);
    let mut onboard = save_profile_response(ProfileSection::Onboard, false);
    onboard[0x18] = 0x08;
    onboard[0x19..0x1B].copy_from_slice(&[0x00, 0x20]);
    onboard[0x25..0x27].copy_from_slice(&[0x00, 0x20]);
    onboard[0x10] = 0xA5;
    let wheel = RgbColor::new(0xFF, 0x00, 0x00);
    let logo = RgbColor::new(0x00, 0x00, 0x00);

    let mut configuration = MockHidTransport::new(1);
    let mut acknowledgements = MockHidTransport::new(2);
    script_onboard_save(
        &mut configuration,
        &mut acknowledgements,
        runtime,
        onboard,
        wheel,
        logo,
        None,
    );

    let mut device = PulsefireRaid::new(configuration).unwrap();
    let mut waits = Vec::new();
    let result = device
        .save_runtime_to_onboard_with_wait(&mut acknowledgements, wheel, logo, None, |ms| {
            waits.push(ms)
        })
        .unwrap();

    assert_eq!(result.polling_rate, PollingRate::Hz500);
    assert_eq!(result.dpi_profile.stages[0].x, 800);
    assert!(!result.macro_saved);
    assert_eq!(
        waits,
        [PROFILE_READ_DELAY_MS, PROFILE_READ_DELAY_MS, ONBOARD_COMMIT_DELAY_MS]
    );
    device.into_transport().assert_drained().unwrap();
    acknowledgements.assert_drained().unwrap();
}

#[test]
fn driver_saves_capture_backed_macro_in_onboard_section() {
    let runtime = save_profile_response(ProfileSection::Runtime, true);
    let onboard = save_profile_response(ProfileSection::Onboard, false);
    let macro_definition = captured_coverage_macro();
    let wheel = RgbColor::new(0x00, 0x00, 0x00);
    let logo = RgbColor::new(0x00, 0x00, 0xFF);

    let mut configuration = MockHidTransport::new(1);
    let mut acknowledgements = MockHidTransport::new(2);
    script_onboard_save(
        &mut configuration,
        &mut acknowledgements,
        runtime,
        onboard,
        wheel,
        logo,
        Some(&macro_definition),
    );

    let mut device = PulsefireRaid::new(configuration).unwrap();
    let result = device
        .save_runtime_to_onboard_with_wait(
            &mut acknowledgements,
            wheel,
            logo,
            Some(&macro_definition),
            |_| {},
        )
        .unwrap();
    assert!(result.macro_saved);
    device.into_transport().assert_drained().unwrap();
    acknowledgements.assert_drained().unwrap();
}

#[test]
fn driver_refuses_missing_macro_before_selecting_onboard_memory() {
    let runtime = save_profile_response(ProfileSection::Runtime, true);
    let mut configuration = MockHidTransport::new(1);
    let mut acknowledgements = MockHidTransport::new(2);
    expect_acked_feature(
        &mut configuration,
        &mut acknowledgements,
        encode_runtime_profile_read_prelude(),
    );
    expect_acked_feature(
        &mut configuration,
        &mut acknowledgements,
        encode_profile_read_request(),
    );
    configuration.queue_feature_response(&runtime);

    let black = RgbColor::new(0, 0, 0);
    let mut device = PulsefireRaid::new(configuration).unwrap();
    assert!(matches!(
        device.save_runtime_to_onboard_with_wait(&mut acknowledgements, black, black, None, |_| {}),
        Err(PulsefireRaidError::MissingOnboardMacroDefinition)
    ));
    device.into_transport().assert_drained().unwrap();
    acknowledgements.assert_drained().unwrap();
}

#[test]
fn driver_refuses_button4_macro_before_selecting_onboard_memory() {
    let mut runtime = save_profile_response(ProfileSection::Runtime, true);
    runtime[0x88..0x8C].copy_from_slice(&[0x53, 0x00, 0x00, 0x03]);
    let mut configuration = MockHidTransport::new(1);
    let mut acknowledgements = MockHidTransport::new(2);
    expect_acked_feature(
        &mut configuration,
        &mut acknowledgements,
        encode_runtime_profile_read_prelude(),
    );
    expect_acked_feature(
        &mut configuration,
        &mut acknowledgements,
        encode_profile_read_request(),
    );
    configuration.queue_feature_response(&runtime);

    let macro_definition = captured_coverage_macro();
    let black = RgbColor::new(0, 0, 0);
    let mut device = PulsefireRaid::new(configuration).unwrap();
    assert!(matches!(
        device.save_runtime_to_onboard_with_wait(
            &mut acknowledgements,
            black,
            black,
            Some(&macro_definition),
            |_| {}
        ),
        Err(PulsefireRaidError::InvalidProfile(
            PerformanceProfileError::UnconfirmedOnboardMacroControl(PulsefireRaidControl::Button4)
        ))
    ));
    device.into_transport().assert_drained().unwrap();
    acknowledgements.assert_drained().unwrap();
}

#[test]
fn driver_aborts_on_an_unexpected_save_acknowledgement() {
    let mut configuration = MockHidTransport::new(1);
    configuration.expect_feature_report(&encode_runtime_profile_read_prelude());
    let mut acknowledgements = MockHidTransport::new(2);
    acknowledgements.queue_input_report(&[0x00; 8]);

    let black = RgbColor::new(0, 0, 0);
    let mut device = PulsefireRaid::new(configuration).unwrap();
    assert!(matches!(
        device.save_runtime_to_onboard_with_wait(&mut acknowledgements, black, black, None, |_| {}),
        Err(PulsefireRaidError::UnexpectedSaveAcknowledgement { opcode: 0x03, .. })
    ));
    device.into_transport().assert_drained().unwrap();
    acknowledgements.assert_drained().unwrap();
}

#[test]
fn driver_rejects_the_wrong_acknowledgement_interface_before_io() {
    let configuration = MockHidTransport::new(1);
    let mut wrong_acknowledgements = MockHidTransport::new(1);
    let black = RgbColor::new(0, 0, 0);
    let mut device = PulsefireRaid::new(configuration).unwrap();

    assert!(matches!(
        device.save_runtime_to_onboard_with_wait(
            &mut wrong_acknowledgements,
            black,
            black,
            None,
            |_| {}
        ),
        Err(PulsefireRaidError::WrongAcknowledgementInterface(1))
    ));
    device.into_transport().assert_drained().unwrap();
    wrong_acknowledgements.assert_drained().unwrap();
}

#[test]
fn onboard_save_copies_only_confirmed_settings_and_keeps_unknown_bytes() {
    let runtime = save_profile_response(ProfileSection::Runtime, false);
    let mut onboard = save_profile_response(ProfileSection::Onboard, false);
    onboard[0x18] = 0x08;
    onboard[0x10] = 0xA5;
    onboard[0xB0] = 0x5A;
    let runtime_profile = PerformanceProfile::parse(&runtime).unwrap();
    let mut onboard_profile = PerformanceProfile::parse(&onboard).unwrap();
    onboard_profile
        .copy_confirmed_runtime_settings_from(&runtime_profile)
        .unwrap();
    let bytes = onboard_profile.as_bytes();
    assert_eq!(bytes[0x18], 0x02);
    assert_eq!(bytes[0x10], 0xA5);
    assert_eq!(bytes[0xB0], 0x5A);
    assert_eq!(bytes[2], 0x01);
    assert_eq!(onboard_profile.section(), ProfileSection::Onboard);
}

#[test]
fn onboard_lighting_reports_carry_wheel_then_logo_in_the_first_report() {
    let reports = encode_onboard_static_lighting_reports(
        RgbColor::new(0xFF, 0x00, 0x00),
        RgbColor::new(0x00, 0x00, 0xFF),
    );
    assert_eq!(&reports[0][..5], &[0x07, 0x18, 0x01, 0x00, 0x00]);
    assert_eq!(&reports[0][8..14], &[0xFF, 0x00, 0x00, 0x00, 0x00, 0xFF]);
    assert_eq!(&reports[1][..5], &[0x07, 0x18, 0x01, 0x00, 0x01]);
    assert_eq!(&reports[2][..5], &[0x07, 0x18, 0x01, 0x00, 0x02]);
    assert!(reports[1][5..].iter().all(|&b| b == 0));
    assert_eq!(&encode_onboard_profile_read_prelude()[..4], &[0x07, 0x03, 0x01, 0x64]);
    assert_eq!(save_acknowledgement(0x81), [0x00, 0x00, 0x07, 0x81, 0xFF, 0x00, 0x00, 0x00]);
    assert_eq!(save_acknowledgement(0x18), [0x00, 0x00, 0x07, 0x18, 0x00, 0x00, 0x00, 0x00]);
}

#[test]
fn onboard_save_error_messages_name_the_acknowledgement() {
    assert_eq!(
        PulsefireRaidError::WrongSaveAcknowledgementLength { opcode: 0x03, actual: 4 }.to_string(),
        "save acknowledgement for opcode 0x03 was 4 bytes, expected 8"
    );
    assert_eq!(
        PulsefireRaidError::UnexpectedSaveAcknowledgement { opcode: 0x81, actual: [0; 8] }
            .to_string(),
        "unexpected save acknowledgement for opcode 0x81: [00, 00, 00, 00, 00, 00, 00, 00]"
    );
    assert_eq!(
        PulsefireRaidError::WrongAcknowledgementInterface(1).to_string(),
        "Pulsefire Raid save acknowledgements require HID interface 2, got 1"
    );
    assert_eq!(
        PulsefireRaidError::InvalidProfile(PerformanceProfileError::UnconfirmedOnboardMacroControl(
            PulsefireRaidControl::Button4
        ))
        .to_string(),
        "onboard macros are not capture-backed for Button4; only Button 5 is supported"
    );
}

#[test]
fn driver_aborts_on_a_short_save_acknowledgement() {
    let mut configuration = MockHidTransport::new(1);
    configuration.expect_feature_report(&encode_runtime_profile_read_prelude());
    let mut acknowledgements = MockHidTransport::new(2);
    acknowledgements.queue_input_report(&[0x00, 0x00, 0x07, 0x03]);

    let black = RgbColor::new(0, 0, 0);
    let mut device = PulsefireRaid::new(configuration).unwrap();
    assert!(matches!(
        device.save_runtime_to_onboard_with_wait(&mut acknowledgements, black, black, None, |_| {}),
        Err(PulsefireRaidError::WrongSaveAcknowledgementLength { opcode: 0x03, actual: 4 })
    ));
    device.into_transport().assert_drained().unwrap();
    acknowledgements.assert_drained().unwrap();
}

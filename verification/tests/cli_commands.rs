use hyperx::button::KeyboardUsage;
use hyperx::capability::PollingRate;
use hyperx::cli::{
    first_value, format_button_binding, parse_cycle_period, parse_dpi, parse_dpi_stage,
    parse_effect_duration, parse_phase_degrees, parse_rgb_or_off, raw_byte_changes,
    resolve_static_rgb, select_configuration_interface, validate_pulsefire_raid_lighting_program,
    ButtonAssignmentCommand, ButtonControlArg, ButtonMouseFunctionArg,
    ButtonMultimediaFunctionArg, ButtonWindowsShortcutArg, ConfigurationSelectionError,
    InterfaceStringField, LightingProgramError, RawByteChange, RgbTargetArg,
};
use hyperx::button::{ButtonBinding, MouseFunction};
use hyperx::color::RgbColor;
use hyperx::device::HidInterfaceInfo;
use hyperx::driver::{PulsefireRaid, PulsefireRaidError};
use hyperx::hid::MockHidTransport;
use hyperx::lighting::{SoftwareLightingEffect, SoftwareLightingProgram};
use hyperx::pulsefire_raid::PulsefireRaidControl;

fn fixture() -> HidInterfaceInfo {
    HidInterfaceInfo {
        path: r"\\?\hid#vid_0951&pid_16e4&mi_01".to_owned(),
        vendor_id: 0x0951,
        product_id: 0x16E4,
        release_number: 0x1124,
        interface_number: 1,
        usage_page: 0xFF01,
        usage: 0x0001,
        manufacturer: Some("HyperX".to_owned()),
        product: Some("HyperX Pulsefire Raid".to_owned()),
        serial_number: None,
    }
}

#[test]
fn first_value_skips_missing_strings() {
    let mut first = fixture();
    first.product = None;
    let second = fixture();
    let interfaces = [first, second];

    assert_eq!(
        first_value(&interfaces, InterfaceStringField::Product),
        Some("HyperX Pulsefire Raid".to_owned())
    );
    assert_eq!(first_value(&interfaces, InterfaceStringField::SerialNumber), None);
}

#[test]
fn configuration_interface_is_selected_by_exact_collection() {
    let mut mouse = fixture();
    mouse.interface_number = 0;
    mouse.usage_page = 0x0001;
    mouse.usage = 0x0002;
    assert_eq!(select_configuration_interface(&[mouse.clone(), fixture()]), Ok(1));
    assert_eq!(
        select_configuration_interface(&[mouse]),
        Err(ConfigurationSelectionError::NotFound)
    );
}

#[test]
fn cli_resolves_legacy_and_per_zone_static_rgb() {
    let orange = RgbColor::new(0xFF, 0x80, 0x00);
    assert_eq!(
        resolve_static_rgb(Some(orange), None, None).unwrap(),
        (orange, orange)
    );
    assert_eq!(
        resolve_static_rgb(
            None,
            Some(RgbColor::new(0xFF, 0, 0)),
            Some(RgbColor::new(0, 0, 0xFF)),
        )
        .unwrap(),
        (RgbColor::new(0xFF, 0, 0), RgbColor::new(0, 0, 0xFF))
    );
    assert_eq!(
        resolve_static_rgb(None, None, Some(RgbColor::new(0, 0xFF, 0))).unwrap(),
        (RgbColor::black(), RgbColor::new(0, 0xFF, 0))
    );
    assert!(resolve_static_rgb(None, None, None).is_err());

    assert_eq!(parse_rgb_or_off("FF8000"), Ok(orange));
    assert_eq!(parse_rgb_or_off("FF0000"), Ok(RgbColor::new(0xFF, 0, 0)));
    assert_eq!(parse_rgb_or_off("0000FF"), Ok(RgbColor::new(0, 0, 0xFF)));
    assert_eq!(parse_effect_duration("30"), Ok(30));
    assert_eq!(parse_rgb_or_off("off"), Ok(RgbColor::black()));
    assert_eq!(
        resolve_static_rgb(
            Some(RgbColor::new(0xFF, 0xFF, 0xFF)),
            Some(parse_rgb_or_off("off").unwrap()),
            None
        )
        .unwrap(),
        (RgbColor::black(), RgbColor::new(0xFF, 0xFF, 0xFF))
    );
    assert!(parse_rgb_or_off("not-a-color").is_err());
}

#[test]
fn cli_validates_foreground_rgb_cycle() {
    let red = RgbColor::new(255, 0, 0);
    let blue = RgbColor::new(0, 0, 255);
    assert_eq!(RgbTargetArg::All.colors(red, blue), (red, blue));
    assert_eq!(RgbTargetArg::Wheel.colors(red, blue), (red, RgbColor::black()));
    assert_eq!(RgbTargetArg::Logo.colors(red, blue), (RgbColor::black(), blue));

    assert_eq!(parse_effect_duration("5"), Ok(5));
    assert_eq!(parse_cycle_period("2"), Ok(2));
    assert_eq!(parse_phase_degrees("180"), Ok(180));

    assert!(parse_effect_duration("0").is_err());
    assert!(parse_effect_duration("3601").is_err());
    assert!(parse_cycle_period("0").is_err());
    assert!(parse_cycle_period("61").is_err());
    assert!(parse_phase_degrees("360").is_err());
}

#[test]
fn cli_value_errors_name_the_rejected_text() {
    assert_eq!(
        parse_effect_duration("0"),
        Err("effect duration must be between 1 and 3600 seconds; got 0".to_owned())
    );
    assert_eq!(
        parse_cycle_period("x"),
        Err("cycle period must be an integer; got x".to_owned())
    );
    assert_eq!(
        parse_phase_degrees("360"),
        Err("phase must be from 0 through 359 degrees; got 360".to_owned())
    );
    assert_eq!(
        parse_dpi_stage("6"),
        Err("DPI stage must be between 1 and 5; got 6".to_owned())
    );
    assert_eq!(
        parse_dpi("abc"),
        Err("DPI must be an integer; got abc".to_owned())
    );
}

#[test]
fn lighting_toml_parses_every_effect_and_rejects_unknown_zones() {
    let effects = [
        SoftwareLightingEffect::Off,
        SoftwareLightingEffect::Solid {
            color: RgbColor::new(0xFF, 0x80, 0x00),
        },
        SoftwareLightingEffect::Cycle {
            period_ms: 5000,
            phase_degrees: 180,
        },
        SoftwareLightingEffect::Pulse {
            color: RgbColor::new(0xFF, 0, 0),
            period_ms: 1000,
            phase_degrees: 90,
        },
        SoftwareLightingEffect::Breathing {
            color: RgbColor::new(0, 0xFF, 0),
            period_ms: 2000,
            phase_degrees: 270,
        },
        SoftwareLightingEffect::TriggeredFade {
            color: RgbColor::new(0, 0, 0xFF),
            fade_ms: 750,
        },
        SoftwareLightingEffect::Confetti {
            step_ms: 200,
            seed: 42,
        },
        SoftwareLightingEffect::Sun {
            period_ms: 5000,
            phase_degrees: 45,
        },
        SoftwareLightingEffect::Twilight {
            period_ms: 5000,
            phase_degrees: 315,
        },
    ];
    for effect in effects {
        let program = SoftwareLightingProgram {
            duration_seconds: 5,
            frame_interval_ms: 50,
            zones: vec![("wheel".to_owned(), effect.clone())],
        };
        assert_eq!(program.validate(), Ok(()), "failed effect: {effect:?}");
    }

    let unknown_zone = SoftwareLightingProgram {
        duration_seconds: 5,
        frame_interval_ms: 50,
        zones: vec![(
            "moon".to_owned(),
            SoftwareLightingEffect::Solid {
                color: RgbColor::new(0xFF, 0xFF, 0xFF),
            },
        )],
    };
    assert_eq!(
        validate_pulsefire_raid_lighting_program(&unknown_zone, true),
        Err(LightingProgramError::UnknownZone("moon".to_owned()))
    );
}

#[test]
fn raid_lighting_needs_a_trigger_source_for_triggered_fade() {
    let program = SoftwareLightingProgram {
        duration_seconds: 5,
        frame_interval_ms: 50,
        zones: vec![(
            "logo".to_owned(),
            SoftwareLightingEffect::TriggeredFade {
                color: RgbColor::new(0, 0, 0xFF),
                fade_ms: 750,
            },
        )],
    };
    assert_eq!(validate_pulsefire_raid_lighting_program(&program, true), Ok(()));
    assert_eq!(
        validate_pulsefire_raid_lighting_program(&program, false),
        Err(LightingProgramError::TriggersUnsupported)
    );
}

#[test]
fn cli_validates_dpi_before_running_the_command() {
    for valid in ["200", "900", "16000"] {
        assert!(parse_dpi(valid).is_ok());
    }
    for invalid in ["199", "225", "16050", "not-a-number"] {
        assert!(parse_dpi(invalid).is_err());
    }
}

#[test]
fn cli_validates_dpi_stage_commands_before_opening_the_device() {
    assert_eq!(parse_dpi_stage("2"), Ok(2));
    assert_eq!(parse_dpi("1700"), Ok(1700));
    assert_eq!(parse_rgb_or_off("CD00FF"), Ok(RgbColor::new(0xCD, 0, 0xFF)));
    assert_eq!(parse_dpi("16000"), Ok(16000));
    assert_eq!(parse_rgb_or_off("FFFFFF"), Ok(RgbColor::new(0xFF, 0xFF, 0xFF)));
    assert_eq!(parse_dpi_stage("5"), Ok(5));

    let mut device = PulsefireRaid::new(MockHidTransport::new(1)).unwrap();
    assert!(matches!(
        device.set_runtime_dpi_stage_with_wait(1, None, None, false, |_| {}),
        Err(PulsefireRaidError::EmptyDpiStageUpdate)
    ));
    device.into_transport().assert_drained().unwrap();
    assert!(parse_dpi_stage("0").is_err());
    assert!(parse_dpi("225").is_err());
    assert!(parse_dpi_stage("6").is_err());
}

#[test]
fn cli_accepts_only_confirmed_polling_rates() {
    for valid in ["125", "250", "500", "1000"] {
        assert!(PollingRate::parse(valid).is_ok());
    }
    assert!(PollingRate::parse("2000").is_err());
}

#[test]
fn raw_ngenuity_legacy_diff_tracks_offsets_and_length_changes() {
    assert_eq!(
        raw_byte_changes(&[0x10, 0x20, 0x30], &[0x10, 0x21, 0x30, 0x40]),
        vec![
            RawByteChange {
                offset: 1,
                before: Some(0x20),
                after: Some(0x21),
            },
            RawByteChange {
                offset: 3,
                before: None,
                after: Some(0x40),
            },
        ]
    );
}

#[test]
fn cli_exposes_only_capture_backed_button_targets_and_assignments() {
    for control in [
        ButtonControlArg::WheelClick,
        ButtonControlArg::Button4,
        ButtonControlArg::Button5,
        ButtonControlArg::Button7,
        ButtonControlArg::Button6,
        ButtonControlArg::Button8,
        ButtonControlArg::Dpi,
        ButtonControlArg::WheelTiltLeft,
        ButtonControlArg::WheelTiltRight,
    ] {
        assert!(ButtonAssignmentCommand::Disabled
            .into_assignment(control.protocol_control())
            .is_ok());
    }
    assert!(ButtonAssignmentCommand::Disabled
        .into_assignment(PulsefireRaidControl::LeftClick)
        .is_err());

    assert!(ButtonAssignmentCommand::Mouse {
        function: ButtonMouseFunctionArg::DpiToggle,
    }
    .into_assignment(PulsefireRaidControl::Dpi)
    .is_ok());
    assert!(ButtonAssignmentCommand::Keyboard {
        key: KeyboardUsage(0x05),
    }
    .into_assignment(PulsefireRaidControl::Dpi)
    .is_ok());
    assert!(ButtonAssignmentCommand::Disabled
        .into_assignment(PulsefireRaidControl::Dpi)
        .is_ok());
    assert!(ButtonAssignmentCommand::Mouse {
        function: ButtonMouseFunctionArg::Forward,
    }
    .into_assignment(PulsefireRaidControl::Dpi)
    .is_err());
    assert!(ButtonAssignmentCommand::Disabled
        .into_assignment(PulsefireRaidControl::Button4)
        .is_ok());
    assert!(ButtonAssignmentCommand::Mouse {
        function: ButtonMouseFunctionArg::Back,
    }
    .into_assignment(PulsefireRaidControl::Button4)
    .is_ok());
    assert!(ButtonAssignmentCommand::Mouse {
        function: ButtonMouseFunctionArg::Forward,
    }
    .into_assignment(PulsefireRaidControl::Button4)
    .is_err());
    for function in [
        ButtonMultimediaFunctionArg::VolumeUp,
        ButtonMultimediaFunctionArg::VolumeDown,
    ] {
        assert!(ButtonAssignmentCommand::Multimedia { function }
            .into_assignment(PulsefireRaidControl::Button7)
            .is_ok());
    }
    assert!(ButtonAssignmentCommand::Multimedia {
        function: ButtonMultimediaFunctionArg::VolumeDown,
    }
    .into_assignment(PulsefireRaidControl::Button5)
    .is_ok());
    assert!(ButtonAssignmentCommand::Disabled
        .into_assignment(PulsefireRaidControl::Button7)
        .is_ok());
    assert!(ButtonAssignmentCommand::WindowsShortcut {
        shortcut: ButtonWindowsShortcutArg::Copy,
    }
    .into_assignment(PulsefireRaidControl::Button7)
    .is_err());
    assert!(ButtonAssignmentCommand::WindowsShortcut {
        shortcut: ButtonWindowsShortcutArg::Copy,
    }
    .into_assignment(PulsefireRaidControl::Button5)
    .is_ok());
    for function in [
        ButtonMouseFunctionArg::Forward,
        ButtonMouseFunctionArg::Back,
        ButtonMouseFunctionArg::DpiToggle,
    ] {
        assert!(ButtonAssignmentCommand::Mouse { function }
            .into_assignment(PulsefireRaidControl::Button5)
            .is_ok());
    }
    for key in ["a", "left-shift"] {
        let key = KeyboardUsage::parse(key).unwrap();
        assert!(ButtonAssignmentCommand::Keyboard { key }
            .into_assignment(PulsefireRaidControl::Dpi)
            .is_ok());
    }
    assert!(KeyboardUsage::parse("definitely-not-a-key").is_err());
}

#[test]
fn assignment_descriptions_name_the_binding() {
    let (_, description) = ButtonAssignmentCommand::Keyboard {
        key: KeyboardUsage(0x04),
    }
    .into_assignment(PulsefireRaidControl::Dpi)
    .unwrap();
    assert_eq!(description, "keyboard HID usage 0x04");
    let (assignment, description) = ButtonAssignmentCommand::Mouse {
        function: ButtonMouseFunctionArg::Back,
    }
    .into_assignment(PulsefireRaidControl::Button6)
    .unwrap();
    assert_eq!(description, "mouse back");
    assert_eq!(assignment.control(), PulsefireRaidControl::Button6);
    assert_eq!(
        assignment.ordinary_binding(),
        Some(&ButtonBinding::Mouse(MouseFunction::Back))
    );
    assert_eq!(
        format_button_binding(&ButtonBinding::Mouse(MouseFunction::Back)),
        "Mouse: back"
    );
}

#[test]
fn static_rgb_refresh_is_limited_to_one_hour() {
    assert_eq!(hyperx::cli::check_static_rgb_duration(0), Ok(()));
    assert_eq!(hyperx::cli::check_static_rgb_duration(3600), Ok(()));
    assert_eq!(
        hyperx::cli::check_static_rgb_duration(3601),
        Err("--duration cannot exceed 3600 seconds".to_owned())
    );
}

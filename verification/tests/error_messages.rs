use hyperx::cli::{validate_pulsefire_raid_lighting_program, LightingProgramError};
use hyperx::lighting::{SoftwareLightingEffect, SoftwareLightingProgram};
use hyperx::button::{ButtonBinding, KeyState, KeyboardMacroEvent, KeyboardUsage, MacroPlayback, MouseFunction};
use hyperx::capability::DpiValidationError;
use hyperx::capture::CaptureParseError;
use hyperx::driver::PulsefireRaidError;
use hyperx::hid::HidError;
use hyperx::hid_descriptor::DescriptorError;
use hyperx::lighting::SoftwareLightingError;
use hyperx::ngenuity::{NgenuityImportError, NgenuityPresetError};
use hyperx::pulsefire_raid::{ConfirmedMacroError, ProfileImageKind, ProfileSection, PulsefireRaidControl};
use hyperx::raid_macro::PulsefireRaidMacroError;

#[test]
fn lighting_errors_name_the_zone_and_the_inner_problem() {
    let error = SoftwareLightingError::InvalidZoneEffect {
        zone: "wheel".to_owned(),
        source: Box::new(SoftwareLightingError::PeriodOutOfRange(50)),
    };
    assert_eq!(
        error.to_string(),
        "invalid effect for lighting zone \"wheel\": lighting period must be between 100 and 60000 ms; got 50"
    );
    assert_eq!(
        SoftwareLightingError::PhaseOutOfRange(360).to_string(),
        "lighting phase must be from 0 through 359 degrees; got 360"
    );
    assert_eq!(
        SoftwareLightingError::NoZones.to_string(),
        "lighting program must contain at least one zone"
    );
}

#[test]
fn capture_and_descriptor_errors_give_their_position() {
    assert_eq!(
        CaptureParseError::InvalidByte { line: 3, token: "0G".to_owned() }.to_string(),
        "line 3: invalid byte `0G`; use two hexadecimal digits"
    );
    assert_eq!(
        CaptureParseError::EmptyReport { line: 1 }.to_string(),
        "line 1: expected at least one hexadecimal byte"
    );
    assert_eq!(
        DescriptorError::GlobalStackUnderflow { offset: 12 }.to_string(),
        "HID global state stack underflow at byte 12"
    );
}

#[test]
fn preset_errors_print_headers_and_offsets_in_hexadecimal() {
    assert_eq!(
        NgenuityPresetError::UnknownHeader(0xBEEF).to_string(),
        "unknown NGENUITY preset header 0x0000BEEF"
    );
    assert_eq!(
        NgenuityPresetError::Truncated { context: "macro name", offset: 0x1A2 }.to_string(),
        "NGENUITY preset is truncated while reading macro name at offset 0x1A2"
    );
    assert_eq!(
        NgenuityPresetError::WrongObjectHeader { name: "macro", expected: 0x12345678, offset: 0 }
            .to_string(),
        "expected macro header 0x12345678 at offset 0x0"
    );
    assert_eq!(
        NgenuityImportError::UnknownKeyboardUsage { name: "A\"B".to_owned(), event: 2, usage: 0x1FF }
            .to_string(),
        "macro \"A\\\"B\" event 2 uses unknown keyboard usage 0x01FF"
    );
}

#[test]
fn confirmed_macro_errors_list_unconfirmed_events() {
    let events = vec![KeyboardMacroEvent {
        usage: KeyboardUsage(4),
        state: KeyState::Pressed,
        timing_ms: 0,
    }];
    assert_eq!(
        ConfirmedMacroError::UnconfirmedEvents(events).to_string(),
        "keyboard macro events [KeyboardMacroEvent { usage: KeyboardUsage(4), state: Pressed, timing_ms: 0 }] have not been confirmed for Pulsefire Raid macros"
    );
    assert_eq!(
        ConfirmedMacroError::UnconfirmedByte { offset: 0x0A, expected: 0x80, actual: 0x00 }.to_string(),
        "byte 0x0A is not part of the confirmed minimal macro: expected 0x80, got 0x00"
    );
}

#[test]
fn driver_errors_describe_the_refused_request() {
    assert_eq!(
        PulsefireRaidError::WrongInterface(-1).to_string(),
        "Pulsefire Raid configuration requires HID interface 1, got -1"
    );
    assert_eq!(
        PulsefireRaidError::WrongProfileResponse {
            kind: ProfileImageKind::HostWrite,
            section: ProfileSection::Onboard,
        }
        .to_string(),
        "unexpected profile read response: got HostWrite Onboard"
    );
    assert_eq!(
        PulsefireRaidError::UnconfirmedRuntimeButtonBinding {
            control: PulsefireRaidControl::LeftClick,
            binding: ButtonBinding::Mouse(MouseFunction::Back),
        }
        .to_string(),
        "runtime binding Mouse(Back) is not capture-backed for LeftClick"
    );
    assert_eq!(
        PulsefireRaidError::UnsupportedMacroPlayback(MacroPlayback::ToggleRepeat).to_string(),
        "Pulsefire Raid macro playback ToggleRepeat is not capture-backed; only once is supported"
    );
    assert_eq!(
        PulsefireRaidError::DpiStageNotFound { stage: 6, stage_count: 5 }.to_string(),
        "DPI stage 6 does not exist; the runtime profile has 5 stage(s)"
    );
    assert_eq!(
        PulsefireRaidError::InvalidDpi(DpiValidationError::NotStepAligned { dpi: 825, minimum: 200, step: 50 })
            .to_string(),
        "DPI 825 must use step 50 starting at 200"
    );
    assert_eq!(
        PulsefireRaidError::Transport(HidError::Transport("gone".to_owned())).to_string(),
        "HID transport error: gone"
    );
    assert_eq!(
        PulsefireRaidError::InvalidMacro(PulsefireRaidMacroError::NotPressed { event: 3 }).to_string(),
        "macro event 3 releases an input that is not down"
    );
}

#[test]
fn raid_lighting_program_errors_report_the_first_unknown_zone() {
    let program = SoftwareLightingProgram {
        duration_seconds: 5,
        frame_interval_ms: 50,
        zones: vec![
            ("logo".to_owned(), SoftwareLightingEffect::Off),
            ("moon".to_owned(), SoftwareLightingEffect::Off),
            ("sun".to_owned(), SoftwareLightingEffect::Off),
        ],
    };
    let error = validate_pulsefire_raid_lighting_program(&program, true).unwrap_err();
    assert_eq!(error, LightingProgramError::UnknownZone("moon".to_owned()));
    assert_eq!(
        error.to_string(),
        "Pulsefire Raid lighting program contains unknown zone \"moon\"; use wheel or logo"
    );
    assert_eq!(
        LightingProgramError::TriggersUnsupported.to_string(),
        "triggered-fade currently requires the Windows system mouse-event adapter"
    );
}

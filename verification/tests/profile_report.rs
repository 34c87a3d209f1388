use hyperx::button::{ButtonBinding, KeyboardUsage, MacroBinding, MacroPlayback, MouseFunction};
use hyperx::color::RgbColor;
use hyperx::performance::{DpiProfile, DpiStage};
use hyperx::profile_text::{button_profile_lines, dpi_profile_lines, runtime_profile_lines};
use hyperx::pulsefire_raid::{DpiAxis, PerformanceProfile, PerformanceProfileError, PulsefireRaidControl};

fn runtime_profile() -> [u8; 264] {
    let mut report = [0_u8; 264];
    report[..3].copy_from_slice(&[0x07, 0x81, 0x04]);
    report[0x18] = 0x01;
    for (index, units) in [20_u8, 32].into_iter().enumerate() {
        report[0x19 + 2 * index + 1] = units;
        report[0x25 + 2 * index + 1] = units;
        report[0x32 + index] = 0x01;
    }
    report[0x25 + 3] = 0x40;
    report[0x69..0x6F].copy_from_slice(&[0x2B, 0x00, 0xFF, 0xCD, 0x00, 0xFF]);
    report[0x31] = 0x01;
    report[0x7C..0xA8].copy_from_slice(&[
        0x02, 0xF0, 0x00, 0x00, 0x02, 0xF2, 0x00, 0x02, 0x02, 0xF1, 0x00, 0x01, 0x02, 0xF8, 0x00,
        0x03, 0x53, 0x00, 0x00, 0x04, 0x04, 0x00, 0x00, 0xE9, 0x04, 0x00, 0x00, 0xEA, 0xFF, 0xEE,
        0xDD, 0xCC, 0x00, 0x04, 0x00, 0x00, 0x02, 0xF5, 0x00, 0x00, 0x02, 0xF6, 0x00, 0x00,
    ]);
    report
}

#[test]
fn runtime_profile_report_lists_polling_stages_and_buttons() {
    let profile = PerformanceProfile::parse(&runtime_profile()).unwrap();
    assert_eq!(
        runtime_profile_lines(&profile),
        vec![
            "Runtime profile:",
            "  Polling rate: 1000 Hz",
            "  DPI stages:",
            "      1: 1000 DPI, color #2B00FF",
            "    * 2: 1600x3200 DPI, color #CD00FF",
            "  Buttons:",
            "    Left click:       Mouse: left click",
            "    Right click:      Mouse: right click",
            "    Wheel click:      Mouse: middle click",
            "    Button 4:         Mouse: back",
            "    Button 5:         Macro reference (definition is not present in the runtime profile)",
            "    Button 7:         Multimedia: volume up",
            "    Button 6:         Multimedia: volume down",
            "    Button 8:         <decode error: unknown Pulsefire Raid binding record [FF, EE, DD, CC] for Button8>",
            "    DPI button:       Keyboard HID usage 0x0004",
            "    Wheel tilt left:  Mouse: tilt left",
            "    Wheel tilt right: Mouse: tilt right",
        ]
    );
}

#[test]
fn undecodable_fields_are_reported_in_place() {
    let mut report = runtime_profile();
    report[0x18] = 0x03;
    report[0x33] = 0x02;
    let profile = PerformanceProfile::parse(&report).unwrap();
    let lines = runtime_profile_lines(&profile);
    assert_eq!(
        lines[1],
        "  Polling rate: <decode error: unknown Pulsefire Raid polling interval code 0x03>"
    );
    assert_eq!(
        lines[3],
        "    <decode error: invalid enabled flag 0x02 for DPI stage 2>"
    );
    assert_eq!(lines[4], "  Buttons:");
    assert_eq!(button_profile_lines(&profile, "").len(), 11);
}

#[test]
fn dpi_profile_lines_mark_the_active_stage() {
    let profile = DpiProfile {
        stages: vec![
            DpiStage::new(800, 800, RgbColor::new(1, 2, 3)),
            DpiStage::new(400, 450, RgbColor::new(0xFF, 0, 0x10)),
        ],
        active_stage: 0,
    };
    assert_eq!(
        dpi_profile_lines(&profile),
        vec!["    * 1: 800 DPI, color #010203", "      2: 400x450 DPI, color #FF0010"]
    );
}

#[test]
fn profile_errors_have_descriptive_messages() {
    assert_eq!(
        PerformanceProfileError::WrongLength(10).to_string(),
        "expected a 264-byte Pulsefire Raid profile report, got 10 bytes"
    );
    assert_eq!(
        PerformanceProfileError::DpiNotStepAligned {
            stage: 3,
            axis: DpiAxis::X,
            dpi: 1625,
        }
        .to_string(),
        "DPI stage 3 X value 1625 must be a multiple of 50"
    );
    assert_eq!(
        PerformanceProfileError::ButtonBindingNotAllowed {
            control: PulsefireRaidControl::LeftClick,
            binding: ButtonBinding::Disabled,
        }
        .to_string(),
        "binding Disabled is not legal for Pulsefire Raid control LeftClick"
    );
    assert_eq!(
        PerformanceProfileError::UnconfirmedButtonBinding(ButtonBinding::Macro(MacroBinding {
            id: "m\"1".to_owned(),
            playback: MacroPlayback::Once,
        }))
        .to_string(),
        "binding Macro(MacroBinding { id: \"m\\\"1\", playback: Once }) does not yet have a capture-backed Pulsefire Raid encoding"
    );
    assert_eq!(
        PerformanceProfileError::UnconfirmedButtonBinding(ButtonBinding::Keyboard(KeyboardUsage(260)))
            .to_string(),
        "binding Keyboard(KeyboardUsage(260)) does not yet have a capture-backed Pulsefire Raid encoding"
    );
    assert_eq!(
        PerformanceProfileError::UnconfirmedButtonBinding(ButtonBinding::Mouse(MouseFunction::TiltLeft))
            .to_string(),
        format!(
            "binding {:?} does not yet have a capture-backed Pulsefire Raid encoding",
            ButtonBinding::Mouse(MouseFunction::TiltLeft)
        )
    );
    assert_eq!(
        PerformanceProfileError::KeyboardUsageOutOfRange(0x100).to_string(),
        "keyboard usage 0x0100 is outside the captured one-byte binding range 0x01..=0xFF"
    );
}

use hyperx::button::{
    normalize_key, ButtonBinding, KeyState, KeyboardMacroEvent, KeyboardUsage, MacroBinding,
    MacroPlayback, MouseFunction, MultimediaFunction, WindowsShortcut,
};
use hyperx::capability::{
    DpiCapabilities, DpiValidationError, MacroCapabilities, PollingRate,
};
use hyperx::color::{ColorParseError, RgbColor};
use hyperx::performance::{DpiProfile, DpiStage};

const DPI: DpiCapabilities = DpiCapabilities {
    minimum: 200,
    maximum: 16_000,
    step: 50,
    max_stages: 5,
};

#[test]
fn represents_each_observed_binding_category() {
    let bindings = [
        ButtonBinding::Mouse(MouseFunction::Back),
        ButtonBinding::Keyboard(KeyboardUsage(0x04)),
        ButtonBinding::Multimedia(MultimediaFunction::VolumeUp),
        ButtonBinding::Macro(MacroBinding {
            id: "test-macro".to_owned(),
            playback: MacroPlayback::RepeatWhileHeld,
        }),
        ButtonBinding::WindowsShortcut(WindowsShortcut::Copy),
        ButtonBinding::Disabled,
    ];

    assert_eq!(bindings.len(), 6);
    assert_ne!(bindings[0], bindings[5]);
}

#[test]
fn macro_timings_are_stored_per_event() {
    let events = [
        KeyboardMacroEvent::pressed(KeyboardUsage(0x04), 20),
        KeyboardMacroEvent::released(KeyboardUsage(0x04), 40),
    ];

    assert_eq!(events[0].state, KeyState::Pressed);
    assert_eq!(events[0].timing_ms, 20);
    assert_eq!(events[1].state, KeyState::Released);
    assert_eq!(events[1].timing_ms, 40);
}

#[test]
fn parses_human_keyboard_names_to_standard_hid_usages() {
    assert_eq!("a".parse(), Ok(KeyboardUsage(0x04)));
    assert_eq!("B".parse(), Ok(KeyboardUsage(0x05)));
    assert_eq!("0".parse(), Ok(KeyboardUsage(0x27)));
    assert_eq!("f12".parse(), Ok(KeyboardUsage(0x45)));
    assert_eq!("F24".parse(), Ok(KeyboardUsage(0x73)));
    assert_eq!("left_shift".parse(), Ok(KeyboardUsage(0xE1)));
    assert_eq!("right-win".parse(), Ok(KeyboardUsage(0xE7)));
    assert!("definitely-not-a-key".parse::<KeyboardUsage>().is_err());
}

#[test]
fn keyboard_names_ignore_case_separators_and_surrounding_space() {
    assert_eq!(normalize_key("  Left-Shift "), "left-shift".chars().collect::<Vec<char>>());
    assert_eq!(KeyboardUsage::parse(" Page_Down "), Ok(KeyboardUsage(0x4E)));
    assert_eq!(KeyboardUsage::parse("Keypad_5"), Ok(KeyboardUsage(0x5D)));
    assert_eq!(KeyboardUsage::parse("Enter"), Ok(KeyboardUsage(0x28)));
    assert_eq!(KeyboardUsage::parse("return"), Ok(KeyboardUsage(0x28)));
    assert_eq!(KeyboardUsage::parse("f1"), Ok(KeyboardUsage(0x3A)));
    assert_eq!(KeyboardUsage::parse("f13"), Ok(KeyboardUsage(0x68)));
    assert!(KeyboardUsage::parse("f25").is_err());
    assert!(KeyboardUsage::parse("f0").is_err());
    assert!(KeyboardUsage::parse("").is_err());
    assert_eq!(KeyboardUsage::parse("f012"), Ok(KeyboardUsage(0x45)));
    assert_eq!(KeyboardUsage::parse("f+1"), Ok(KeyboardUsage(0x3A)));
    assert_eq!(KeyboardUsage::parse("keypad-0"), Ok(KeyboardUsage(0x62)));
    assert!(KeyboardUsage::parse("keypad-10").is_err());
}

#[test]
fn macro_runtime_and_onboard_support_are_independent() {
    let capabilities = MacroCapabilities {
        runtime_playback: &[MacroPlayback::Once, MacroPlayback::ToggleRepeat],
        onboard_playback: &[MacroPlayback::Once],
        max_events: 14,
        max_delay_ms: 9_999,
    };
    assert!(capabilities.supports_runtime(MacroPlayback::ToggleRepeat));
    assert!(!capabilities.supports_onboard(MacroPlayback::ToggleRepeat));
    assert!(capabilities.supports_onboard(MacroPlayback::Once));
    assert!(!capabilities.supports_runtime(MacroPlayback::RepeatWhileHeld));
    for (playback, name) in [
        (MacroPlayback::Once, "once"),
        (MacroPlayback::ToggleRepeat, "toggle-repeat"),
        (MacroPlayback::RepeatWhileHeld, "repeat-while-held"),
    ] {
        assert_eq!(playback.to_string(), name);
    }
}

#[test]
fn validates_dpi_range_and_step() {
    assert_eq!(DPI.validate(200), Ok(200));
    assert_eq!(DPI.validate(16_000), Ok(16_000));
    assert!(matches!(
        DPI.validate(199),
        Err(DpiValidationError::OutOfRange { dpi: 199, .. })
    ));
    assert!(matches!(
        DPI.validate(225),
        Err(DpiValidationError::NotStepAligned { dpi: 225, .. })
    ));
}

#[test]
fn dpi_errors_describe_the_rejected_value() {
    assert_eq!(
        DPI.validate(16_050),
        Err(DpiValidationError::OutOfRange {
            dpi: 16_050,
            minimum: 200,
            maximum: 16_000,
        })
    );
    assert_eq!(
        DPI.validate(199).unwrap_err().to_string(),
        "DPI 199 is outside the supported range 200..=16000"
    );
    assert_eq!(
        DPI.validate(225).unwrap_err().to_string(),
        "DPI 225 must use step 50 starting at 200"
    );
}

#[test]
fn parses_and_displays_polling_rates() {
    for (text, rate) in [
        ("125", PollingRate::Hz125),
        ("250", PollingRate::Hz250),
        ("500", PollingRate::Hz500),
        ("1000", PollingRate::Hz1000),
    ] {
        assert_eq!(text.parse::<PollingRate>(), Ok(rate));
        assert_eq!(rate.to_string(), text);
    }
    assert!("2000".parse::<PollingRate>().is_err());
}

#[test]
fn polling_rate_hz_and_parse_error_text() {
    assert_eq!(PollingRate::Hz125.hz(), 125);
    assert_eq!(PollingRate::Hz1000.hz(), 1000);
    let error = PollingRate::parse("2000").unwrap_err();
    assert_eq!(
        error.to_string(),
        "polling rate must be one of: 125, 250, 500, 1000 Hz; got 2000"
    );
}

#[test]
fn parses_hash_and_plain_rgb() {
    assert_eq!("FF8000".parse(), Ok(RgbColor::new(0xFF, 0x80, 0x00)));
    assert_eq!("#00ff7F".parse(), Ok(RgbColor::new(0x00, 0xFF, 0x7F)));
}

#[test]
fn rejects_wrong_length_and_non_hex_input() {
    assert_eq!(
        "FFF".parse::<RgbColor>(),
        Err(ColorParseError::InvalidLength)
    );
    assert_eq!(
        "GG0000".parse::<RgbColor>(),
        Err(ColorParseError::InvalidHex)
    );
}

#[test]
fn rgb_colors_format_as_upper_hex_and_expose_bytes() {
    assert_eq!(RgbColor::new(1, 2, 3).to_string(), "#010203");
    assert_eq!(RgbColor::new(0xAB, 0xCD, 0xEF).bytes(), [0xAB, 0xCD, 0xEF]);
    assert_eq!(RgbColor::black(), RgbColor::new(0, 0, 0));
    let parsed = RgbColor::parse(&RgbColor::new(0x12, 0xFE, 0x80).to_string());
    assert_eq!(parsed, Ok(RgbColor::new(0x12, 0xFE, 0x80)));
    assert_eq!(
        ColorParseError::InvalidLength.to_string(),
        "RGB color must contain exactly six hexadecimal digits, for example FF8000"
    );
}

#[test]
fn returns_active_stage() {
    let profile = DpiProfile {
        stages: vec![
            DpiStage::new(800, 800, RgbColor::new(0, 0, 0xFF)),
            DpiStage::new(1600, 1600, RgbColor::new(0xFF, 0, 0)),
        ],
        active_stage: 1,
    };

    assert_eq!(
        profile.active(),
        Some(&DpiStage::new(1600, 1600, RgbColor::new(0xFF, 0, 0)))
    );
}

#[test]
fn active_stage_out_of_range_is_none() {
    let profile = DpiProfile {
        stages: vec![DpiStage::new(800, 800, RgbColor::black())],
        active_stage: 1,
    };
    assert_eq!(profile.active(), None);
}

#[test]
fn color_text_parses_back_to_the_same_color() {
    for color in [
        hyperx::color::RgbColor::new(0x2B, 0x00, 0xFF),
        hyperx::color::RgbColor::new(0x00, 0x00, 0x00),
        hyperx::color::RgbColor::new(0xA5, 0x5A, 0x0F),
    ] {
        let text = color.to_string();
        assert_eq!(hyperx::color::RgbColor::parse(&text), Ok(color));
    }
}

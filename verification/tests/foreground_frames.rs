use hyperx::cli::RgbTargetArg;
use hyperx::color::RgbColor;
use hyperx::foreground::{cycle_frame, mouse_button_mask, zone_effect, LightingPlayback, MouseTrigger};
use hyperx::lighting::{SoftwareLightingEffect, SoftwareLightingError, SoftwareLightingProgram};

#[test]
fn mouse_trigger_reports_only_new_presses() {
    assert_eq!(mouse_button_mask([true, false, true, false, false]), 0b00101);
    assert_eq!(mouse_button_mask([false, false, false, false, true]), 0b10000);
    let mut trigger = MouseTrigger::new(0b00001);
    assert!(!trigger.poll_down_edge(0b00001));
    assert!(trigger.poll_down_edge(0b00011));
    assert!(!trigger.poll_down_edge(0b00010));
    assert!(!trigger.poll_down_edge(0));
    assert!(trigger.poll_down_edge(0b00100));
    assert_eq!(trigger.previous, 0b00100);
}

#[test]
fn program_frames_render_wheel_and_logo_zones() {
    let red = RgbColor::new(200, 0, 0);
    let program = SoftwareLightingProgram {
        duration_seconds: 5,
        frame_interval_ms: 50,
        zones: vec![(
            "logo".to_owned(),
            SoftwareLightingEffect::TriggeredFade {
                color: red,
                fade_ms: 1_000,
            },
        )],
    };
    assert_eq!(zone_effect(&program, "wheel"), None);
    assert!(zone_effect(&program, "logo").is_some());

    let mut playback = LightingPlayback::new();
    assert_eq!(
        playback.frame(&program, 100, false),
        Ok((RgbColor::black(), RgbColor::black()))
    );
    assert_eq!(playback.frame(&program, 200, true), Ok((RgbColor::black(), red)));
    assert_eq!(playback.last_trigger_ms, Some(200));
    assert_eq!(
        playback.frame(&program, 1_300, false),
        Ok((RgbColor::black(), RgbColor::black()))
    );

    let invalid = SoftwareLightingProgram {
        duration_seconds: 5,
        frame_interval_ms: 50,
        zones: vec![(
            "wheel".to_owned(),
            SoftwareLightingEffect::Cycle {
                period_ms: 1,
                phase_degrees: 0,
            },
        )],
    };
    assert_eq!(
        LightingPlayback::new().frame(&invalid, 0, false),
        Err(SoftwareLightingError::PeriodOutOfRange(1))
    );
}

#[test]
fn cycle_frames_offset_the_logo_and_blank_untargeted_leds() {
    assert_eq!(
        cycle_frame(RgbTargetArg::All, 6, 120, 0),
        Ok((RgbColor::new(255, 0, 0), RgbColor::new(0, 255, 0)))
    );
    assert_eq!(
        cycle_frame(RgbTargetArg::Wheel, 6, 120, 0),
        Ok((RgbColor::new(255, 0, 0), RgbColor::black()))
    );
    assert_eq!(
        cycle_frame(RgbTargetArg::Logo, 6, 120, 0),
        Ok((RgbColor::black(), RgbColor::new(0, 255, 0)))
    );
    assert_eq!(
        cycle_frame(RgbTargetArg::All, 0, 0, 0),
        Err(SoftwareLightingError::PeriodOutOfRange(0))
    );
}

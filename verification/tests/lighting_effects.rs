use hyperx::color::RgbColor;
use hyperx::lighting::{
    default_confetti_step_ms, default_fade_ms, default_frame_interval_ms, default_period_ms,
    spectrum_color, SoftwareLightingEffect, SoftwareLightingError, SoftwareLightingProgram,
    SPECTRUM_STEPS,
};

fn effect_color(effect: SoftwareLightingEffect, elapsed_ms: u64) -> RgbColor {
    effect.color_at(elapsed_ms, None).unwrap()
}

#[test]
fn spectrum_has_stable_primary_and_secondary_anchors() {
    assert_eq!(spectrum_color(0), RgbColor::new(255, 0, 0));
    assert_eq!(spectrum_color(256), RgbColor::new(255, 255, 0));
    assert_eq!(spectrum_color(512), RgbColor::new(0, 255, 0));
    assert_eq!(spectrum_color(768), RgbColor::new(0, 255, 255));
    assert_eq!(spectrum_color(1024), RgbColor::new(0, 0, 255));
    assert_eq!(spectrum_color(1280), RgbColor::new(255, 0, 255));
    assert_eq!(spectrum_color(SPECTRUM_STEPS), spectrum_color(0));
}

#[test]
fn spectrum_interpolates_between_anchors() {
    assert_eq!(spectrum_color(128), RgbColor::new(255, 128, 0));
    assert_eq!(spectrum_color(384), RgbColor::new(127, 255, 0));
    assert_eq!(spectrum_color(SPECTRUM_STEPS + 512), spectrum_color(512));
}

#[test]
fn renders_distinct_timed_effect_curves_and_phase_offsets() {
    let red = RgbColor::new(255, 0, 0);
    let pulse = SoftwareLightingEffect::Pulse {
        color: red,
        period_ms: 1_000,
        phase_degrees: 0,
    };
    assert_eq!(effect_color(pulse.clone(), 0), red);
    assert_eq!(effect_color(pulse, 1_000), red);

    let breathing = SoftwareLightingEffect::Breathing {
        color: red,
        period_ms: 1_000,
        phase_degrees: 0,
    };
    assert_eq!(effect_color(breathing.clone(), 0), RgbColor::black());
    assert_eq!(effect_color(breathing, 500), red);

    let shifted = SoftwareLightingEffect::Cycle {
        period_ms: 6_000,
        phase_degrees: 120,
    };
    assert_eq!(effect_color(shifted, 0), RgbColor::new(0, 255, 0));
}

#[test]
fn periodic_effects_repeat_after_one_period() {
    let effect = SoftwareLightingEffect::Sun {
        period_ms: 2_000,
        phase_degrees: 45,
    };
    assert_eq!(effect_color(effect.clone(), 300), effect_color(effect, 2_300));
    let twilight = SoftwareLightingEffect::Twilight {
        period_ms: 700,
        phase_degrees: 10,
    };
    assert_eq!(
        effect_color(twilight.clone(), 50),
        effect_color(twilight, 750)
    );
}

#[test]
fn triggered_fade_restarts_from_full_color_and_expires() {
    let color = RgbColor::new(200, 100, 50);
    let fade = SoftwareLightingEffect::TriggeredFade {
        color,
        fade_ms: 1_000,
    };
    assert_eq!(fade.color_at(500, None).unwrap(), RgbColor::black());
    assert_eq!(fade.color_at(500, Some(500)).unwrap(), color);
    assert_eq!(fade.color_at(1_500, Some(500)).unwrap(), RgbColor::black());
}

#[test]
fn confetti_is_deterministic_and_zone_seeds_can_differ() {
    let first = SoftwareLightingEffect::Confetti {
        step_ms: 100,
        seed: 1,
    };
    let second = SoftwareLightingEffect::Confetti {
        step_ms: 100,
        seed: 2,
    };
    assert_eq!(effect_color(first.clone(), 250), effect_color(first, 250));
    assert_ne!(
        effect_color(second, 250),
        effect_color(
            SoftwareLightingEffect::Confetti {
                step_ms: 100,
                seed: 1,
            },
            250,
        )
    );
}

#[test]
fn validates_program_and_effect_bounds() {
    let zones = vec![(
        "wheel".to_owned(),
        SoftwareLightingEffect::Cycle {
            period_ms: 5_000,
            phase_degrees: 0,
        },
    )];
    let program = SoftwareLightingProgram {
        duration_seconds: 30,
        frame_interval_ms: 50,
        zones,
    };
    assert_eq!(program.validate(), Ok(()));
    assert!(!program.uses_triggers());

    let invalid = SoftwareLightingEffect::Breathing {
        color: RgbColor::new(255, 0, 0),
        period_ms: 0,
        phase_degrees: 360,
    };
    assert_eq!(
        invalid.validate(),
        Err(SoftwareLightingError::PeriodOutOfRange(0))
    );
}

#[test]
fn program_errors_cover_every_bound() {
    let zone = |effect| vec![("logo".to_owned(), effect)];
    let base = |duration_seconds, frame_interval_ms, zones| SoftwareLightingProgram {
        duration_seconds,
        frame_interval_ms,
        zones,
    };
    assert_eq!(
        base(0, 50, zone(SoftwareLightingEffect::Off)).validate(),
        Err(SoftwareLightingError::DurationOutOfRange(0))
    );
    assert_eq!(
        base(10, 10, zone(SoftwareLightingEffect::Off)).validate(),
        Err(SoftwareLightingError::FrameIntervalOutOfRange(10))
    );
    assert_eq!(
        base(10, 50, Vec::new()).validate(),
        Err(SoftwareLightingError::NoZones)
    );
    assert_eq!(
        base(
            10,
            50,
            zone(SoftwareLightingEffect::Pulse {
                color: RgbColor::black(),
                period_ms: 1_000,
                phase_degrees: 360,
            })
        )
        .validate(),
        Err(SoftwareLightingError::InvalidZoneEffect {
            zone: "logo".to_owned(),
            source: Box::new(SoftwareLightingError::PhaseOutOfRange(360)),
        })
    );
    assert_eq!(
        SoftwareLightingEffect::Confetti { step_ms: 10, seed: 0 }.validate(),
        Err(SoftwareLightingError::ConfettiStepOutOfRange(10))
    );
    assert_eq!(
        SoftwareLightingEffect::TriggeredFade {
            color: RgbColor::black(),
            fade_ms: 20_000,
        }
        .validate(),
        Err(SoftwareLightingError::FadeOutOfRange(20_000))
    );
    assert!(SoftwareLightingEffect::Pulse {
        color: RgbColor::black(),
        period_ms: 0,
        phase_degrees: 0,
    }
    .color_at(0, None)
    .is_err());
}

#[test]
fn triggered_fade_is_the_only_trigger_user() {
    let program = SoftwareLightingProgram {
        duration_seconds: 5,
        frame_interval_ms: 20,
        zones: vec![
            ("logo".to_owned(), SoftwareLightingEffect::Off),
            (
                "wheel".to_owned(),
                SoftwareLightingEffect::TriggeredFade {
                    color: RgbColor::new(1, 2, 3),
                    fade_ms: 100,
                },
            ),
        ],
    };
    assert!(program.uses_triggers());
    assert!(!SoftwareLightingEffect::Solid { color: RgbColor::black() }.uses_trigger());
}

#[test]
fn lighting_defaults_match_documented_values() {
    assert_eq!(default_frame_interval_ms(), 50);
    assert_eq!(default_period_ms(), 5_000);
    assert_eq!(default_confetti_step_ms(), 250);
    assert_eq!(default_fade_ms(), 1_000);
}

#[test]
fn program_zones_in_name_order_name_the_least_invalid_zone() {
    let bad = |period_ms| SoftwareLightingEffect::Cycle {
        period_ms,
        phase_degrees: 0,
    };
    let program = SoftwareLightingProgram {
        duration_seconds: 30,
        frame_interval_ms: 50,
        zones: vec![("logo".to_owned(), bad(0)), ("wheel".to_owned(), bad(1))],
    };
    assert!(program.has_ordered_zones());
    assert_eq!(
        program.validate(),
        Err(SoftwareLightingError::InvalidZoneEffect {
            zone: "logo".to_owned(),
            source: Box::new(SoftwareLightingError::PeriodOutOfRange(0)),
        })
    );
    let unordered = SoftwareLightingProgram {
        zones: vec![("wheel".to_owned(), bad(0)), ("logo".to_owned(), bad(1))],
        ..program.clone()
    };
    assert!(!unordered.has_ordered_zones());
    let repeated = SoftwareLightingProgram {
        zones: vec![("logo".to_owned(), bad(0)), ("logo".to_owned(), bad(1))],
        ..program.clone()
    };
    assert!(!repeated.has_ordered_zones());
    let prefix = SoftwareLightingProgram {
        zones: vec![("log".to_owned(), bad(0)), ("logo".to_owned(), bad(1))],
        ..program
    };
    assert!(prefix.has_ordered_zones());
}

//! Foreground software lighting: effect validation and frame rendering.
//!
//! Every effect is a pure function of the elapsed time (and, for the
//! triggered fade, of the time of the latest trigger).
use vstd::prelude::*;
use crate::color::RgbColor;
use crate::text::str_chars;

verus! {

/// Number of integer RGB steps in one full red-green-blue spectrum cycle.
pub const SPECTRUM_STEPS: u16 = 1536;

pub const MIN_PROGRAM_DURATION_SECONDS: u64 = 1;

pub const MAX_PROGRAM_DURATION_SECONDS: u64 = 3600;

pub const MIN_FRAME_INTERVAL_MS: u64 = 20;

pub const MAX_FRAME_INTERVAL_MS: u64 = 1000;

pub const MIN_PERIOD_MS: u64 = 100;

pub const MAX_PERIOD_MS: u64 = 60000;

pub const MIN_CONFETTI_STEP_MS: u64 = 50;

pub const MAX_CONFETTI_STEP_MS: u64 = 5000;

pub const MIN_FADE_MS: u64 = 50;

pub const MAX_FADE_MS: u64 = 10000;

/// One portable software-rendered effect.
#[derive(Clone, Debug, PartialEq, Eq, Structural)]
pub enum SoftwareLightingEffect {
    Off,
    Solid { color: RgbColor },
    Cycle { period_ms: u64, phase_degrees: u16 },
    Pulse { color: RgbColor, period_ms: u64, phase_degrees: u16 },
    Breathing { color: RgbColor, period_ms: u64, phase_degrees: u16 },
    TriggeredFade { color: RgbColor, fade_ms: u64 },
    Confetti { step_ms: u64, seed: u64 },
    Sun { period_ms: u64, phase_degrees: u16 },
    Twilight { period_ms: u64, phase_degrees: u16 },
}

/// Why a lighting program or effect was rejected.
#[derive(Debug, PartialEq, Eq)]
pub enum SoftwareLightingError {
    DurationOutOfRange(u64),
    FrameIntervalOutOfRange(u64),
    NoZones,
    PeriodOutOfRange(u64),
    PhaseOutOfRange(u16),
    ConfettiStepOutOfRange(u64),
    FadeOutOfRange(u64),
    InvalidZoneEffect { zone: String, source: Box<SoftwareLightingError> },
}

/// A foreground program: a duration, a frame interval, and one effect per
/// device-defined zone. The zones stand as a map keyed by name holds them:
/// in strictly increasing name order, each name once
/// (`zones_in_name_order`), which `validate` and the renderers require.
#[derive(Clone, Debug, PartialEq, Eq)]
pub struct SoftwareLightingProgram {
    pub duration_seconds: u64,
    pub frame_interval_ms: u64,
    pub zones: Vec<(String, SoftwareLightingEffect)>,
}

pub fn default_frame_interval_ms() -> (ms: u64)
    ensures
        ms == 50,
{
    50
}

pub fn default_period_ms() -> (ms: u64)
    ensures
        ms == 5000,
{
    5000
}

pub fn default_confetti_step_ms() -> (ms: u64)
    ensures
        ms == 250,
{
    250
}

pub fn default_fade_ms() -> (ms: u64)
    ensures
        ms == 1000,
{
    1000
}

/// Why a periodic effect's timing is rejected, if it is.
pub open spec fn periodic_error(period_ms: u64, phase_degrees: u16) -> Option<SoftwareLightingError> {
    if !(100 <= period_ms <= 60000) {
        Some(SoftwareLightingError::PeriodOutOfRange(period_ms))
    } else if phase_degrees >= 360 {
        Some(SoftwareLightingError::PhaseOutOfRange(phase_degrees))
    } else {
        None
    }
}

/// Why an effect is rejected, if it is.
pub open spec fn effect_error(effect: SoftwareLightingEffect) -> Option<SoftwareLightingError> {
    match effect {
        SoftwareLightingEffect::Off => None,
        SoftwareLightingEffect::Solid { .. } => None,
        SoftwareLightingEffect::Cycle { period_ms, phase_degrees } => periodic_error(period_ms, phase_degrees),
        SoftwareLightingEffect::Pulse { period_ms, phase_degrees, .. } => periodic_error(period_ms, phase_degrees),
        SoftwareLightingEffect::Breathing { period_ms, phase_degrees, .. } => periodic_error(period_ms, phase_degrees),
        SoftwareLightingEffect::Sun { period_ms, phase_degrees } => periodic_error(period_ms, phase_degrees),
        SoftwareLightingEffect::Twilight { period_ms, phase_degrees } => periodic_error(period_ms, phase_degrees),
        SoftwareLightingEffect::TriggeredFade { fade_ms, .. } => if 50 <= fade_ms <= 10000 {
            None
        } else {
            Some(SoftwareLightingError::FadeOutOfRange(fade_ms))
        },
        SoftwareLightingEffect::Confetti { step_ms, .. } => if 50 <= step_ms <= 5000 {
            None
        } else {
            Some(SoftwareLightingError::ConfettiStepOutOfRange(step_ms))
        },
    }
}

/// One saturated color of the deterministic RGB spectrum.
pub open spec fn spectrum_color_spec(phase: u16) -> RgbColor {
    let p = phase % 1536;
    let segment = p / 256;
    let offset = (p % 256) as u8;
    let inverse = (255 - offset) as u8;
    if segment == 0 {
        RgbColor { red: 255, green: offset, blue: 0 }
    } else if segment == 1 {
        RgbColor { red: inverse, green: 255, blue: 0 }
    } else if segment == 2 {
        RgbColor { red: 0, green: 255, blue: offset }
    } else if segment == 3 {
        RgbColor { red: 0, green: inverse, blue: 255 }
    } else if segment == 4 {
        RgbColor { red: offset, green: 0, blue: 255 }
    } else {
        RgbColor { red: 255, green: 0, blue: inverse }
    }
}

/// Position in a cycle of `steps` steps: the elapsed part of the period
/// plus the phase offset, wrapped.
pub open spec fn cycle_progress_spec(elapsed_ms: u64, period_ms: u64, phase_degrees: u16, steps: u16) -> int {
    ((elapsed_ms % period_ms) * steps / (period_ms as int) + phase_degrees * steps / 360) % (steps as int)
}

/// A channel scaled by a brightness, rounded to nearest.
pub open spec fn scale_channel(channel: u8, brightness: u8) -> u8 {
    ((channel * brightness + 127) / 255) as u8
}

pub open spec fn scale_color_spec(color: RgbColor, brightness: u8) -> RgbColor {
    RgbColor {
        red: scale_channel(color.red, brightness),
        green: scale_channel(color.green, brightness),
        blue: scale_channel(color.blue, brightness),
    }
}

/// The cubic ease `3v² - 2v³` on the 0..=255 scale.
pub open spec fn smoothstep_spec(value: u8) -> u8 {
    ((value * value * (765 - 2 * value) + 32512) / 65025) as u8
}

/// A channel mixed from `start` toward `end` by `amount / 255`.
pub open spec fn mix_channel(start: u8, end: u8, amount: u8) -> u8 {
    ((start * (255 - amount) + end * amount + 127) / 255) as u8
}

pub open spec fn mix_color_spec(start: RgbColor, end: RgbColor, amount: u8) -> RgbColor {
    RgbColor {
        red: mix_channel(start.red, end.red, amount),
        green: mix_channel(start.green, end.green, amount),
        blue: mix_channel(start.blue, end.blue, amount),
    }
}

/// A color blended between adjacent entries of a four-color palette.
pub open spec fn palette_color_spec(palette: Seq<RgbColor>, progress: u16) -> RgbColor {
    let segment = (progress / 256) % 4;
    let next = (segment + 1) % 4;
    mix_color_spec(palette[segment as int], palette[next as int], (progress % 256) as u8)
}

pub open spec fn sun_palette_spec() -> Seq<RgbColor> {
    seq![
        RgbColor { red: 0xFF, green: 0x20, blue: 0x00 },
        RgbColor { red: 0xFF, green: 0x8C, blue: 0x00 },
        RgbColor { red: 0xFF, green: 0xE0, blue: 0xA0 },
        RgbColor { red: 0xFF, green: 0x70, blue: 0x00 },
    ]
}

pub open spec fn twilight_palette_spec() -> Seq<RgbColor> {
    seq![
        RgbColor { red: 0x10, green: 0x00, blue: 0x30 },
        RgbColor { red: 0x50, green: 0x00, blue: 0xA0 },
        RgbColor { red: 0x00, green: 0x40, blue: 0xA0 },
        RgbColor { red: 0xA0, green: 0x00, blue: 0x70 },
    ]
}

/// The SplitMix64 output function.
pub open spec fn splitmix64_spec(value: u64) -> u64 {
    let a = vstd::wrapping::u64_specs::wrapping_add(value, 0x9E3779B97F4A7C15);
    let b = vstd::wrapping::u64_specs::wrapping_mul(a ^ (a >> 30u64), 0xBF58476D1CE4E5B9);
    let c = vstd::wrapping::u64_specs::wrapping_mul(b ^ (b >> 27u64), 0x94D049BB133111EB);
    c ^ (c >> 31u64)
}

/// The brightness of a breathing effect at a cycle position: a triangle
/// eased by the smoothstep curve.
pub open spec fn breathing_brightness(progress: u8) -> u8 {
    let triangle = if progress < 128 {
        (2 * progress) as u8
    } else {
        if 2 * (255 - progress) > 255 {
            255u8
        } else {
            (2 * (255 - progress)) as u8
        }
    };
    smoothstep_spec(triangle)
}

/// The color a valid effect renders at `elapsed_ms`.
pub open spec fn effect_color(effect: SoftwareLightingEffect, elapsed_ms: u64, last_trigger_ms: Option<u64>) -> RgbColor {
    match effect {
        SoftwareLightingEffect::Off => RgbColor { red: 0, green: 0, blue: 0 },
        SoftwareLightingEffect::Solid { color } => color,
        SoftwareLightingEffect::Cycle { period_ms, phase_degrees } => spectrum_color_spec(
            cycle_progress_spec(elapsed_ms, period_ms, phase_degrees, 1536) as u16,
        ),
        SoftwareLightingEffect::Pulse { color, period_ms, phase_degrees } => scale_color_spec(
            color,
            (255 - cycle_progress_spec(elapsed_ms, period_ms, phase_degrees, 256)) as u8,
        ),
        SoftwareLightingEffect::Breathing { color, period_ms, phase_degrees } => scale_color_spec(
            color,
            breathing_brightness(cycle_progress_spec(elapsed_ms, period_ms, phase_degrees, 256) as u8),
        ),
        SoftwareLightingEffect::TriggeredFade { color, fade_ms } => match last_trigger_ms {
            None => RgbColor { red: 0, green: 0, blue: 0 },
            Some(trigger_ms) => {
                let age = if elapsed_ms >= trigger_ms {
                    elapsed_ms - trigger_ms
                } else {
                    0
                };
                if age >= fade_ms {
                    RgbColor { red: 0, green: 0, blue: 0 }
                } else {
                    scale_color_spec(color, (255 - age * 255 / (fade_ms as int)) as u8)
                }
            },
        },
        SoftwareLightingEffect::Confetti { step_ms, seed } => spectrum_color_spec(
            (splitmix64_spec(vstd::wrapping::u64_specs::wrapping_add(seed, elapsed_ms / step_ms))
                % 1536) as u16,
        ),
        SoftwareLightingEffect::Sun { period_ms, phase_degrees } => palette_color_spec(
            sun_palette_spec(),
            cycle_progress_spec(elapsed_ms, period_ms, phase_degrees, 1024) as u16,
        ),
        SoftwareLightingEffect::Twilight { period_ms, phase_degrees } => palette_color_spec(
            twilight_palette_spec(),
            cycle_progress_spec(elapsed_ms, period_ms, phase_degrees, 1024) as u16,
        ),
    }
}

fn validate_period(period_ms: u64) -> (res: Result<(), SoftwareLightingError>)
    ensures
        100 <= period_ms <= 60000 ==> res is Ok,
        !(100 <= period_ms <= 60000) ==> res == Err::<(), SoftwareLightingError>(
            SoftwareLightingError::PeriodOutOfRange(period_ms),
        ),
{
    if MIN_PERIOD_MS <= period_ms && period_ms <= MAX_PERIOD_MS {
        Ok(())
    } else {
        Err(SoftwareLightingError::PeriodOutOfRange(period_ms))
    }
}

fn validate_phase(phase_degrees: u16) -> (res: Result<(), SoftwareLightingError>)
    ensures
        phase_degrees < 360 ==> res is Ok,
        phase_degrees >= 360 ==> res == Err::<(), SoftwareLightingError>(
            SoftwareLightingError::PhaseOutOfRange(phase_degrees),
        ),
{
    if phase_degrees < 360 {
        Ok(())
    } else {
        Err(SoftwareLightingError::PhaseOutOfRange(phase_degrees))
    }
}

fn validate_periodic(period_ms: u64, phase_degrees: u16) -> (res: Result<(), SoftwareLightingError>)
    ensures
        match periodic_error(period_ms, phase_degrees) {
            None => res is Ok,
            Some(e) => res == Err::<(), SoftwareLightingError>(e),
        },
{
    if let Err(e) = validate_period(period_ms) {
        return Err(e);
    }
    validate_phase(phase_degrees)
}

fn cycle_progress_u16(elapsed_ms: u64, period_ms: u64, phase_degrees: u16, steps: u16) -> (progress: u16)
    requires
        period_ms > 0,
        steps > 0,
    ensures
        progress == cycle_progress_spec(elapsed_ms, period_ms, phase_degrees, steps),
        progress < steps,
{
    let within = (elapsed_ms % period_ms) as u128;
    assert(within * (steps as u128) <= 0xFFFF_FFFF_FFFF_FFFF * 0xFFFF) by (nonlinear_arith)
        requires
            within <= 0xFFFF_FFFF_FFFF_FFFF,
            steps <= 0xFFFF,
    ;
    let timed = within * (steps as u128) / (period_ms as u128);
    assert((phase_degrees as u128) * (steps as u128) <= 0xFFFF * 0xFFFF) by (nonlinear_arith)
        requires
            phase_degrees <= 0xFFFF,
            steps <= 0xFFFF,
    ;
    let offset = (phase_degrees as u128) * (steps as u128) / 360;
    assert(timed <= within * (steps as u128)) by (nonlinear_arith)
        requires
            period_ms >= 1,
            timed == within * (steps as u128) / (period_ms as int),
    ;
    ((timed + offset) % (steps as u128)) as u16
}

fn cycle_progress(elapsed_ms: u64, period_ms: u64, phase_degrees: u16) -> (progress: u8)
    requires
        period_ms > 0,
    ensures
        progress == cycle_progress_spec(elapsed_ms, period_ms, phase_degrees, 256),
{
    cycle_progress_u16(elapsed_ms, period_ms, phase_degrees, 256) as u8
}

fn cycle_spectrum_phase(elapsed_ms: u64, period_ms: u64, phase_degrees: u16) -> (phase: u16)
    requires
        period_ms > 0,
    ensures
        phase == cycle_progress_spec(elapsed_ms, period_ms, phase_degrees, 1536),
{
    cycle_progress_u16(elapsed_ms, period_ms, phase_degrees, SPECTRUM_STEPS)
}

fn scale(channel: u8, brightness: u8) -> (scaled: u8)
    ensures
        scaled == scale_channel(channel, brightness),
{
    assert((channel as u16) * (brightness as u16) <= 65025) by (nonlinear_arith)
        requires
            channel <= 255,
            brightness <= 255,
    ;
    assert(((channel as u16) * (brightness as u16) + 127) / 255 <= 255);
    (((channel as u16) * (brightness as u16) + 127) / 255) as u8
}

fn scale_color(color: RgbColor, brightness: u8) -> (scaled: RgbColor)
    ensures
        scaled == scale_color_spec(color, brightness),
{
    RgbColor::new(
        scale(color.red, brightness),
        scale(color.green, brightness),
        scale(color.blue, brightness),
    )
}

fn smoothstep(value: u8) -> (eased: u8)
    ensures
        eased == smoothstep_spec(value),
{
    let v = value as u32;
    assert(v * v <= 65025) by (nonlinear_arith)
        requires
            v <= 255,
    ;
    let squared = v * v;
    assert(squared * (765 - 2 * v) <= 65025 * 765) by (nonlinear_arith)
        requires
            squared <= 65025,
            v <= 255,
    ;
    assert(squared * (765 - 2 * v) <= 65025 * 255) by (nonlinear_arith)
        requires
            squared == v * v,
            v <= 255,
    ;
    ((squared * (765 - 2 * v) + 32512) / 65025) as u8
}

fn mix(start: u8, end: u8, amount: u8) -> (mixed: u8)
    ensures
        mixed == mix_channel(start, end, amount),
{
    let inverse = (255 - amount) as u16;
    assert((start as u16) * inverse + (end as u16) * (amount as u16) <= 65025) by (nonlinear_arith)
        requires
            start <= 255,
            end <= 255,
            inverse + amount == 255,
    ;
    (((start as u16) * inverse + (end as u16) * (amount as u16) + 127) / 255) as u8
}

fn mix_color(start: RgbColor, end: RgbColor, amount: u8) -> (mixed: RgbColor)
    ensures
        mixed == mix_color_spec(start, end, amount),
{
    RgbColor::new(
        mix(start.red, end.red, amount),
        mix(start.green, end.green, amount),
        mix(start.blue, end.blue, amount),
    )
}

fn palette_color(palette: &[RgbColor; 4], progress: u16) -> (color: RgbColor)
    ensures
        color == palette_color_spec(palette@, progress),
{
    let segment = ((progress / 256) % 4) as usize;
    let next = (segment + 1) % 4;
    let amount = (progress % 256) as u8;
    mix_color(palette[segment], palette[next], amount)
}

fn sun_palette() -> (palette: [RgbColor; 4])
    ensures
        palette@ == sun_palette_spec(),
{
    let palette = [
        RgbColor::new(0xFF, 0x20, 0x00),
        RgbColor::new(0xFF, 0x8C, 0x00),
        RgbColor::new(0xFF, 0xE0, 0xA0),
        RgbColor::new(0xFF, 0x70, 0x00),
    ];
    assert(palette@ =~= sun_palette_spec());
    palette
}

fn twilight_palette() -> (palette: [RgbColor; 4])
    ensures
        palette@ == twilight_palette_spec(),
{
    let palette = [
        RgbColor::new(0x10, 0x00, 0x30),
        RgbColor::new(0x50, 0x00, 0xA0),
        RgbColor::new(0x00, 0x40, 0xA0),
        RgbColor::new(0xA0, 0x00, 0x70),
    ];
    assert(palette@ =~= twilight_palette_spec());
    palette
}

fn splitmix64(value: u64) -> (mixed: u64)
    ensures
        mixed == splitmix64_spec(value),
{
    let a = value.wrapping_add(0x9E3779B97F4A7C15);
    let b = (a ^ (a >> 30)).wrapping_mul(0xBF58476D1CE4E5B9);
    let c = (b ^ (b >> 27)).wrapping_mul(0x94D049BB133111EB);
    c ^ (c >> 31)
}

/// One saturated color from a deterministic RGB spectrum.
pub fn spectrum_color(phase: u16) -> (color: RgbColor)
    ensures
        color == spectrum_color_spec(phase),
{
    let phase = phase % SPECTRUM_STEPS;
    let segment = phase / 256;
    let offset = (phase % 256) as u8;
    let inverse = 255 - offset;
    if segment == 0 {
        RgbColor::new(255, offset, 0)
    } else if segment == 1 {
        RgbColor::new(inverse, 255, 0)
    } else if segment == 2 {
        RgbColor::new(0, 255, offset)
    } else if segment == 3 {
        RgbColor::new(0, inverse, 255)
    } else if segment == 4 {
        RgbColor::new(offset, 0, 255)
    } else {
        RgbColor::new(255, 0, inverse)
    }
}

impl SoftwareLightingEffect {
    pub fn validate(&self) -> (res: Result<(), SoftwareLightingError>)
        ensures
            match effect_error(*self) {
                None => res is Ok,
                Some(e) => res == Err::<(), SoftwareLightingError>(e),
            },
    {
        match *self {
            SoftwareLightingEffect::Off => Ok(()),
            SoftwareLightingEffect::Solid { .. } => Ok(()),
            SoftwareLightingEffect::Cycle { period_ms, phase_degrees } => validate_periodic(period_ms, phase_degrees),
            SoftwareLightingEffect::Pulse { period_ms, phase_degrees, .. } => validate_periodic(period_ms, phase_degrees),
            SoftwareLightingEffect::Breathing { period_ms, phase_degrees, .. } => validate_periodic(period_ms, phase_degrees),
            SoftwareLightingEffect::Sun { period_ms, phase_degrees } => validate_periodic(period_ms, phase_degrees),
            SoftwareLightingEffect::Twilight { period_ms, phase_degrees } => validate_periodic(period_ms, phase_degrees),
            SoftwareLightingEffect::TriggeredFade { fade_ms, .. } => {
                if MIN_FADE_MS <= fade_ms && fade_ms <= MAX_FADE_MS {
                    Ok(())
                } else {
                    Err(SoftwareLightingError::FadeOutOfRange(fade_ms))
                }
            },
            SoftwareLightingEffect::Confetti { step_ms, .. } => {
                if MIN_CONFETTI_STEP_MS <= step_ms && step_ms <= MAX_CONFETTI_STEP_MS {
                    Ok(())
                } else {
                    Err(SoftwareLightingError::ConfettiStepOutOfRange(step_ms))
                }
            },
        }
    }

    pub fn uses_trigger(&self) -> (uses: bool)
        ensures
            uses == (*self is TriggeredFade),
    {
        match self {
            SoftwareLightingEffect::TriggeredFade { .. } => true,
            _ => false,
        }
    }

    /// Render one frame at `elapsed_ms`. `last_trigger_ms` is used only by
    /// the triggered fade: the elapsed time of the latest input trigger.
    pub fn color_at(&self, elapsed_ms: u64, last_trigger_ms: Option<u64>) -> (res: Result<
        RgbColor,
        SoftwareLightingError,
    >)
        ensures
            match effect_error(*self) {
                None => res == Ok::<RgbColor, SoftwareLightingError>(
                    effect_color(*self, elapsed_ms, last_trigger_ms),
                ),
                Some(e) => res == Err::<RgbColor, SoftwareLightingError>(e),
            },
    {
        if let Err(e) = self.validate() {
            return Err(e);
        }
        let color = match *self {
            SoftwareLightingEffect::Off => RgbColor::black(),
            SoftwareLightingEffect::Solid { color } => color,
            SoftwareLightingEffect::Cycle { period_ms, phase_degrees } => spectrum_color(
                cycle_spectrum_phase(elapsed_ms, period_ms, phase_degrees),
            ),
            SoftwareLightingEffect::Pulse { color, period_ms, phase_degrees } => {
                let progress = cycle_progress(elapsed_ms, period_ms, phase_degrees);
                scale_color(color, 255 - progress)
            },
            SoftwareLightingEffect::Breathing { color, period_ms, phase_degrees } => {
                let progress = cycle_progress(elapsed_ms, period_ms, phase_degrees);
                let triangle = if progress < 128 {
                    progress * 2
                } else if 255 - progress > 127 {
                    255
                } else {
                    (255 - progress) * 2
                };
                scale_color(color, smoothstep(triangle))
            },
            SoftwareLightingEffect::TriggeredFade { color, fade_ms } => {
                match last_trigger_ms {
                    None => RgbColor::black(),
                    Some(trigger_ms) => {
                        let age_ms = elapsed_ms.saturating_sub(trigger_ms);
                        if age_ms >= fade_ms {
                            RgbColor::black()
                        } else {
                            assert(age_ms * 255 < fade_ms * 255) by (nonlinear_arith)
                                requires
                                    age_ms < fade_ms,
                            ;
                            assert(age_ms * 255 / (fade_ms as int) < 255) by (nonlinear_arith)
                                requires
                                    age_ms < fade_ms,
                                    fade_ms > 0,
                            ;
                            let brightness = 255 - ((age_ms * 255 / fade_ms) as u8);
                            scale_color(color, brightness)
                        }
                    },
                }
            },
            SoftwareLightingEffect::Confetti { step_ms, seed } => {
                let bucket = elapsed_ms / step_ms;
                let random = splitmix64(seed.wrapping_add(bucket));
                spectrum_color((random % (SPECTRUM_STEPS as u64)) as u16)
            },
            SoftwareLightingEffect::Sun { period_ms, phase_degrees } => palette_color(
                &sun_palette(),
                cycle_progress_u16(elapsed_ms, period_ms, phase_degrees, 1024),
            ),
            SoftwareLightingEffect::Twilight { period_ms, phase_degrees } => palette_color(
                &twilight_palette(),
                cycle_progress_u16(elapsed_ms, period_ms, phase_degrees, 1024),
            ),
        };
        Ok(color)
    }
}

/// Why a program is rejected, if it is: duration, then frame interval,
/// then an empty zone list, then the first invalid zone effect.
pub open spec fn program_base_error(duration_seconds: u64, frame_interval_ms: u64, zone_count: nat) -> Option<
    SoftwareLightingError,
> {
    if !(1 <= duration_seconds <= 3600) {
        Some(SoftwareLightingError::DurationOutOfRange(duration_seconds))
    } else if !(20 <= frame_interval_ms <= 1000) {
        Some(SoftwareLightingError::FrameIntervalOutOfRange(frame_interval_ms))
    } else if zone_count == 0 {
        Some(SoftwareLightingError::NoZones)
    } else {
        None
    }
}

impl SoftwareLightingProgram {
    /// Validate every portable constraint before discovery or device I/O.
    pub fn validate(&self) -> (res: Result<(), SoftwareLightingError>)
        requires
            zones_in_name_order(self.zones@),
        ensures
            res matches Err(SoftwareLightingError::InvalidZoneEffect { zone, .. }) ==> forall|i: int|
                0 <= i < self.zones@.len() && effect_error(#[trigger] self.zones@[i].1) is Some ==> zone@
                    == self.zones@[i].0@ || name_before(zone@, self.zones@[i].0@),
            match program_base_error(self.duration_seconds, self.frame_interval_ms, self.zones@.len()) {
                Some(e) => res == Err::<(), SoftwareLightingError>(e),
                None => {
                    &&& res is Ok <==> forall|i: int|
                        0 <= i < self.zones@.len() ==> effect_error(#[trigger] self.zones@[i].1) is None
                    &&& res matches Err(err) ==> exists|j: int|
                        0 <= j < self.zones@.len() && (forall|i: int|
                            0 <= i < j ==> effect_error(#[trigger] self.zones@[i].1) is None)
                            && effect_error(self.zones@[j].1) is Some && (err matches SoftwareLightingError::InvalidZoneEffect {
                            zone,
                            source,
                        } && zone@ == self.zones@[j].0@ && Some(*source) == effect_error(
                            self.zones@[j].1,
                        ))
                },
            },
    {
        if self.duration_seconds < MIN_PROGRAM_DURATION_SECONDS || self.duration_seconds
            > MAX_PROGRAM_DURATION_SECONDS {
            return Err(SoftwareLightingError::DurationOutOfRange(self.duration_seconds));
        }
        if self.frame_interval_ms < MIN_FRAME_INTERVAL_MS || self.frame_interval_ms
            > MAX_FRAME_INTERVAL_MS {
            return Err(SoftwareLightingError::FrameIntervalOutOfRange(self.frame_interval_ms));
        }
        if self.zones.len() == 0 {
            return Err(SoftwareLightingError::NoZones);
        }
        let mut i: usize = 0;
        while i < self.zones.len()
            invariant
                i <= self.zones@.len(),
                program_base_error(self.duration_seconds, self.frame_interval_ms, self.zones@.len())
                    is None,
                forall|k: int| 0 <= k < i ==> effect_error(#[trigger] self.zones@[k].1) is None,
                zones_in_name_order(self.zones@),
            decreases self.zones.len() - i,
        {
            if let Err(source) = self.zones[i].1.validate() {
                let zone = self.zones[i].0.clone();
                let boxed = Box::new(source);
                assert(Some(*boxed) == effect_error(self.zones@[i as int].1));
                let err = SoftwareLightingError::InvalidZoneEffect { zone, source: boxed };
                assert(err matches SoftwareLightingError::InvalidZoneEffect { zone, source } && zone@
                    == self.zones@[i as int].0@ && Some(*source) == effect_error(self.zones@[i as int].1));
                proof {
                    lemma_first_invalid_zone_has_least_name(self.zones@, i as int);
                }
                return Err(err);
            }
            i += 1;
        }
        Ok(())
    }

    pub fn uses_triggers(&self) -> (uses: bool)
        ensures
            uses == exists|i: int| 0 <= i < self.zones@.len() && #[trigger] self.zones@[i].1 is TriggeredFade,
    {
        let mut i: usize = 0;
        while i < self.zones.len()
            invariant
                i <= self.zones@.len(),
                forall|k: int| 0 <= k < i ==> !(#[trigger] self.zones@[k].1 is TriggeredFade),
            decreases self.zones.len() - i,
        {
            if self.zones[i].1.uses_trigger() {
                return true;
            }
            i += 1;
        }
        false
    }
}


/// The spectrum repeats every `SPECTRUM_STEPS` phase steps.
pub proof fn lemma_spectrum_periodic(phase: u16)
    requires
        phase + 1536 <= 0xFFFF,
    ensures
        spectrum_color_spec((phase + 1536) as u16) == spectrum_color_spec(phase),
{
    assert(((phase + 1536) as u16) % 1536 == phase % 1536);
}

/// A periodic effect renders the same color one period later.
pub proof fn lemma_periodic_effect_repeats(effect: SoftwareLightingEffect, elapsed_ms: u64, trigger: Option<u64>)
    requires
        effect_error(effect) is None,
        match effect {
            SoftwareLightingEffect::Cycle { period_ms, .. } => elapsed_ms + period_ms <= u64::MAX,
            SoftwareLightingEffect::Pulse { period_ms, .. } => elapsed_ms + period_ms <= u64::MAX,
            SoftwareLightingEffect::Breathing { period_ms, .. } => elapsed_ms + period_ms <= u64::MAX,
            SoftwareLightingEffect::Sun { period_ms, .. } => elapsed_ms + period_ms <= u64::MAX,
            SoftwareLightingEffect::Twilight { period_ms, .. } => elapsed_ms + period_ms <= u64::MAX,
            _ => false,
        },
    ensures
        match effect {
            SoftwareLightingEffect::Cycle { period_ms, .. } => effect_color(effect, (elapsed_ms + period_ms) as u64, trigger)
                == effect_color(effect, elapsed_ms, trigger),
            SoftwareLightingEffect::Pulse { period_ms, .. } => effect_color(effect, (elapsed_ms + period_ms) as u64, trigger)
                == effect_color(effect, elapsed_ms, trigger),
            SoftwareLightingEffect::Breathing { period_ms, .. } => effect_color(effect, (elapsed_ms + period_ms) as u64, trigger)
                == effect_color(effect, elapsed_ms, trigger),
            SoftwareLightingEffect::Sun { period_ms, .. } => effect_color(effect, (elapsed_ms + period_ms) as u64, trigger)
                == effect_color(effect, elapsed_ms, trigger),
            SoftwareLightingEffect::Twilight { period_ms, .. } => effect_color(effect, (elapsed_ms + period_ms) as u64, trigger)
                == effect_color(effect, elapsed_ms, trigger),
            _ => true,
        },
{
    let p: u64 = match effect {
        SoftwareLightingEffect::Cycle { period_ms, .. } => period_ms,
        SoftwareLightingEffect::Pulse { period_ms, .. } => period_ms,
        SoftwareLightingEffect::Breathing { period_ms, .. } => period_ms,
        SoftwareLightingEffect::Sun { period_ms, .. } => period_ms,
        SoftwareLightingEffect::Twilight { period_ms, .. } => period_ms,
        _ => 1,
    };
    assert(((elapsed_ms + p) as u64) % p == elapsed_ms % p) by {
        vstd::arithmetic::div_mod::lemma_mod_add_multiples_vanish(elapsed_ms as int, p as int);
    }
}

/// A trigger restarts the fade at the full configured color.
pub proof fn lemma_triggered_fade_restarts(color: RgbColor, fade_ms: u64, trigger_ms: u64)
    requires
        50 <= fade_ms <= 10000,
    ensures
        effect_color(SoftwareLightingEffect::TriggeredFade { color, fade_ms }, trigger_ms, Some(trigger_ms))
            == color,
{
    assert(forall|c: u8| #[trigger] scale_channel(c, 255) == c) by {
        assert forall|c: u8| #[trigger] scale_channel(c, 255) == c by {
            assert((c * 255 + 127) / 255 == c) by (nonlinear_arith)
                requires
                    0 <= c <= 255,
            ;
        }
    }
}

/// The fade is black once its duration has passed since the trigger, and
/// black when there has been no trigger.
pub proof fn lemma_triggered_fade_expires(color: RgbColor, fade_ms: u64, elapsed_ms: u64, trigger: Option<u64>)
    requires
        50 <= fade_ms <= 10000,
        trigger matches Some(t) ==> elapsed_ms >= t + fade_ms,
    ensures
        effect_color(SoftwareLightingEffect::TriggeredFade { color, fade_ms }, elapsed_ms, trigger)
            == (RgbColor { red: 0, green: 0, blue: 0 }),
{
}

/// `a` sorts before `b` as `String` orders names: character by character,
/// a proper prefix first.
pub open spec fn name_before(a: Seq<char>, b: Seq<char>) -> bool
    decreases a.len(),
{
    if a.len() == 0 {
        b.len() > 0
    } else if b.len() == 0 {
        false
    } else if a[0] != b[0] {
        (a[0] as u32) < (b[0] as u32)
    } else {
        name_before(a.drop_first(), b.drop_first())
    }
}

/// Zones in strictly increasing name order, each name once: the order in
/// which a map keyed by zone name holds them.
pub open spec fn zones_in_name_order(zones: Seq<(String, SoftwareLightingEffect)>) -> bool {
    forall|i: int, j: int| 0 <= i < j < zones.len() ==> name_before(#[trigger] zones[i].0@, #[trigger] zones[j].0@)
}

/// When a program's zones are in name order, the zone that `validate`
/// names in its error, the first invalid one, has the least name of all
/// invalid zones.
pub proof fn lemma_first_invalid_zone_has_least_name(zones: Seq<(String, SoftwareLightingEffect)>, j: int)
    requires
        zones_in_name_order(zones),
        0 <= j < zones.len(),
        forall|i: int| 0 <= i < j ==> effect_error(#[trigger] zones[i].1) is None,
        effect_error(zones[j].1) is Some,
    ensures
        forall|i: int|
            0 <= i < zones.len() && i != j && effect_error(#[trigger] zones[i].1) is Some ==> name_before(
                zones[j].0@,
                zones[i].0@,
            ),
{
    assert forall|i: int|
        0 <= i < zones.len() && i != j && effect_error(#[trigger] zones[i].1) is Some implies name_before(
            zones[j].0@,
            zones[i].0@,
        ) by {
        if i < j {
            assert(effect_error(zones[i].1) is None);
        }
    }
}

/// Whether `a` sorts before `b` as `String` orders names.
fn name_precedes(a: &str, b: &str) -> (before: bool)
    ensures
        before == name_before(a@, b@),
{
    let x = str_chars(a);
    let y = str_chars(b);
    let mut i: usize = 0;
    assert(a@.skip(0) =~= a@ && b@.skip(0) =~= b@);
    while i < x.len() && i < y.len() && x[i] == y[i]
        invariant
            i <= x@.len(),
            i <= y@.len(),
            x@ == a@,
            y@ == b@,
            name_before(a@, b@) == name_before(a@.skip(i as int), b@.skip(i as int)),
        decreases x.len() - i,
    {
        assert(a@.skip(i as int).drop_first() =~= a@.skip(i as int + 1));
        assert(b@.skip(i as int).drop_first() =~= b@.skip(i as int + 1));
        i += 1;
    }
    assert(a@.skip(i as int).len() == a@.len() - i && b@.skip(i as int).len() == b@.len() - i);
    if i == x.len() {
        i < y.len()
    } else if i == y.len() {
        false
    } else {
        (x[i] as u32) < (y[i] as u32)
    }
}

impl SoftwareLightingProgram {
    /// Whether the zones are in strictly increasing name order, each name
    /// once.
    pub fn has_ordered_zones(&self) -> (ordered: bool)
        ensures
            ordered == zones_in_name_order(self.zones@),
    {
        let n = self.zones.len();
        let mut i: usize = 0;
        while i < n
            invariant
                n == self.zones@.len(),
                i <= n,
                forall|a: int, b: int| 0 <= a < b < n && a < i ==> name_before(#[trigger] self.zones@[a].0@, #[trigger] self.zones@[b].0@),
            decreases n - i,
        {
            let mut j: usize = i + 1;
            while j < n
                invariant
                    n == self.zones@.len(),
                    i < n,
                    i + 1 <= j <= n,
                    forall|a: int, b: int| 0 <= a < b < n && a < i ==> name_before(#[trigger] self.zones@[a].0@, #[trigger] self.zones@[b].0@),
                    forall|b: int| i < b < j ==> name_before(self.zones@[i as int].0@, #[trigger] self.zones@[b].0@),
                decreases n - j,
            {
                if !name_precedes(self.zones[i].0.as_str(), self.zones[j].0.as_str()) {
                    return false;
                }
                j += 1;
            }
            i += 1;
        }
        true
    }
}

proof fn lemma_pulse_position(t: u64, period_ms: u64)
    requires
        0 < period_ms,
        t < period_ms,
    ensures
        cycle_progress_spec(t, period_ms, 0, 256) == t * 256 / (period_ms as int),
        0 <= t * 256 / (period_ms as int) < 256,
{
    assert(t % period_ms == t) by {
        vstd::arithmetic::div_mod::lemma_small_mod(t as nat, period_ms as nat);
    }
    assert(0 <= t * 256 / (period_ms as int) < 256) by (nonlinear_arith)
        requires
            0 < period_ms,
            t < period_ms,
    ;
    assert(0u16 * 256u16 / 360 == 0);
}

/// Within one period a Pulse with phase 0 is its color at brightness 255
/// minus its position in a 256-step cycle: at `t` ms into a period of `P`
/// ms the position is `t * 256 / P`.
pub proof fn lemma_pulse_brightness(color: RgbColor, period_ms: u64, t: u64, trigger: Option<u64>)
    requires
        0 < period_ms,
        t < period_ms,
    ensures
        effect_color(SoftwareLightingEffect::Pulse { color, period_ms, phase_degrees: 0 }, t, trigger)
            == scale_color_spec(color, (255 - t * 256 / (period_ms as int)) as u8),
{
    lemma_pulse_position(t, period_ms);
}

/// Half way through its period a Pulse with phase 0 shows its color at
/// brightness 127 of 255.
pub proof fn lemma_pulse_half_period(color: RgbColor, period_ms: u64, trigger: Option<u64>)
    requires
        0 < period_ms,
        period_ms % 2 == 0,
    ensures
        effect_color(SoftwareLightingEffect::Pulse { color, period_ms, phase_degrees: 0 }, period_ms / 2, trigger)
            == scale_color_spec(color, 127),
{
    let half = period_ms / 2;
    lemma_pulse_position(half, period_ms);
    assert(half * 256 / (period_ms as int) == 128) by (nonlinear_arith)
        requires
            period_ms == 2 * half,
            half > 0,
    {
        assert(half * 256 == 128 * (2 * half));
    }
}

proof fn lemma_scale_channel_monotone(channel: u8, low: u8, high: u8)
    requires
        low <= high,
    ensures
        scale_channel(channel, low) <= scale_channel(channel, high),
{
    assert(channel * low + 127 <= channel * high + 127) by (nonlinear_arith)
        requires
            low <= high,
    ;
    vstd::arithmetic::div_mod::lemma_div_is_ordered(channel * low + 127, channel * high + 127, 255);
    assert((channel * high + 127) / 255 <= 255) by (nonlinear_arith);
}

/// A Pulse with phase 0 never brightens within a period: every channel at
/// a later time of the period is at most the channel at an earlier time;
/// for white, whose channels are the brightness itself, the brightness
/// drops by one step each time the position advances.
pub proof fn lemma_pulse_fades(color: RgbColor, period_ms: u64, t1: u64, t2: u64, trigger: Option<u64>)
    requires
        0 < period_ms,
        t1 <= t2 < period_ms,
    ensures
        ({
            let early = effect_color(SoftwareLightingEffect::Pulse { color, period_ms, phase_degrees: 0 }, t1, trigger);
            let late = effect_color(SoftwareLightingEffect::Pulse { color, period_ms, phase_degrees: 0 }, t2, trigger);
            &&& late.red <= early.red
            &&& late.green <= early.green
            &&& late.blue <= early.blue
        }),
        color == (RgbColor { red: 255, green: 255, blue: 255 }) && t1 * 256 / (period_ms as int) < t2 * 256 / (
        period_ms as int) ==> effect_color(SoftwareLightingEffect::Pulse { color, period_ms, phase_degrees: 0 }, t2, trigger).red
            < effect_color(SoftwareLightingEffect::Pulse { color, period_ms, phase_degrees: 0 }, t1, trigger).red,
{
    lemma_pulse_position(t1, period_ms);
    lemma_pulse_position(t2, period_ms);
    vstd::arithmetic::div_mod::lemma_div_is_ordered(t1 * 256, t2 * 256, period_ms as int);
    let b1 = (255 - t1 * 256 / (period_ms as int)) as u8;
    let b2 = (255 - t2 * 256 / (period_ms as int)) as u8;
    assert(b2 <= b1);
    lemma_scale_channel_monotone(color.red, b2, b1);
    lemma_scale_channel_monotone(color.green, b2, b1);
    lemma_scale_channel_monotone(color.blue, b2, b1);
    assert(scale_channel(255, b1) == b1) by (nonlinear_arith);
    assert(scale_channel(255, b2) == b2) by (nonlinear_arith);
}

} // verus!

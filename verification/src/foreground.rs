//! Decisions of the foreground lighting loops: which colors each frame
//! sends and when a mouse press retriggers a fade. The caller owns the
//! clock, the sleeps, the input polling and the device.
use vstd::prelude::*;
use crate::cli::RgbTargetArg;
use crate::color::RgbColor;
use crate::lighting::{
    effect_color, effect_error, zones_in_name_order, SoftwareLightingEffect, SoftwareLightingError,
    SoftwareLightingProgram,
};

verus! {

/// The pressed mouse buttons as a bit mask: bit `i` is set when
/// `pressed[i]` is.
pub open spec fn button_mask_spec(pressed: Seq<bool>) -> u8 {
    ((if pressed[0] { 1u8 } else { 0u8 }) | (if pressed[1] { 2u8 } else { 0u8 }) | (if pressed[2] {
        4u8
    } else {
        0u8
    }) | (if pressed[3] { 8u8 } else { 0u8 }) | (if pressed[4] { 16u8 } else { 0u8 })) as u8
}

/// Fold the five polled button states (left, right, middle, back,
/// forward) into one mask.
pub fn mouse_button_mask(pressed: [bool; 5]) -> (mask: u8)
    ensures
        mask == button_mask_spec(pressed@),
{
    (if pressed[0] { 1u8 } else { 0u8 }) | (if pressed[1] { 2u8 } else { 0u8 }) | (if pressed[2] {
        4u8
    } else {
        0u8
    }) | (if pressed[3] { 8u8 } else { 0u8 }) | (if pressed[4] { 16u8 } else { 0u8 })
}

/// Edge detector over polled mouse-button masks.
pub struct MouseTrigger {
    pub previous: u8,
}

impl MouseTrigger {
    /// Start from the buttons held now, so a held button is no press.
    pub fn new(current: u8) -> (trigger: Self)
        ensures
            trigger.previous == current,
    {
        MouseTrigger { previous: current }
    }

    /// Whether a button went down since the previous poll; the new mask
    /// becomes the previous one.
    pub fn poll_down_edge(&mut self, current: u8) -> (down: bool)
        ensures
            down == (current & !old(self).previous != 0),
            final(self).previous == current,
    {
        let down = current & !self.previous != 0;
        self.previous = current;
        down
    }
}

/// The position of the first zone named `name` from `start` on.
pub open spec fn zone_position_from(
    zones: Seq<(String, SoftwareLightingEffect)>,
    name: Seq<char>,
    start: int,
) -> Option<int>
    decreases zones.len() - start,
{
    if start < 0 || start >= zones.len() {
        None
    } else if zones[start].0@ == name {
        Some(start)
    } else {
        zone_position_from(zones, name, start + 1)
    }
}

/// The effect of the zone named `name`, if the program has one.
pub open spec fn zone_effect_spec(program: SoftwareLightingProgram, name: Seq<char>) -> Option<
    SoftwareLightingEffect,
> {
    match zone_position_from(program.zones@, name, 0) {
        Some(i) => Some(program.zones@[i].1),
        None => None,
    }
}

/// The effect assigned to a zone.
pub fn zone_effect<'a>(program: &'a SoftwareLightingProgram, zone: &str) -> (effect: Option<
    &'a SoftwareLightingEffect,
>)
    requires
        zones_in_name_order(program.zones@),
    ensures
        match zone_effect_spec(*program, zone@) {
            Some(e) => effect matches Some(f) && *f == e,
            None => effect is None,
        },
{
    let mut i: usize = 0;
    while i < program.zones.len()
        invariant
            i <= program.zones@.len(),
            zone_position_from(program.zones@, zone@, 0) == zone_position_from(
                program.zones@,
                zone@,
                i as int,
            ),
        decreases program.zones.len() - i,
    {
        if program.zones[i].0 == zone.to_owned() {
            return Some(&program.zones[i].1);
        }
        i += 1;
    }
    None
}

/// The color of an optional zone effect: black where the zone is absent.
pub open spec fn zone_frame(effect: Option<SoftwareLightingEffect>, elapsed_ms: u64, last_trigger_ms: Option<u64>) -> Result<
    RgbColor,
    SoftwareLightingError,
> {
    match effect {
        Some(e) => match effect_error(e) {
            Some(err) => Err(err),
            None => Ok(effect_color(e, elapsed_ms, last_trigger_ms)),
        },
        None => Ok(RgbColor { red: 0, green: 0, blue: 0 }),
    }
}

fn render_zone(effect: Option<&SoftwareLightingEffect>, elapsed_ms: u64, last_trigger_ms: Option<u64>) -> (res: Result<
    RgbColor,
    SoftwareLightingError,
>)
    ensures
        res == zone_frame(
            match effect {
                Some(e) => Some(*e),
                None => None,
            },
            elapsed_ms,
            last_trigger_ms,
        ),
{
    match effect {
        Some(e) => e.color_at(elapsed_ms, last_trigger_ms),
        None => Ok(RgbColor::black()),
    }
}

/// Playback state of a lighting program: when the latest trigger came.
pub struct LightingPlayback {
    pub last_trigger_ms: Option<u64>,
}

impl LightingPlayback {
    pub fn new() -> (playback: Self)
        ensures
            playback.last_trigger_ms is None,
    {
        LightingPlayback { last_trigger_ms: None }
    }

    /// One frame of a program at `elapsed_ms`: a button press in this
    /// frame restarts triggered fades, then the `wheel` and `logo` zones
    /// are rendered (black where a zone is absent).
    pub fn frame(&mut self, program: &SoftwareLightingProgram, elapsed_ms: u64, down_edge: bool) -> (res:
        Result<(RgbColor, RgbColor), SoftwareLightingError>)
        requires
            zones_in_name_order(program.zones@),
        ensures
            final(self).last_trigger_ms == (if down_edge {
                Some(elapsed_ms)
            } else {
                old(self).last_trigger_ms
            }),
            ({
                let trigger = final(self).last_trigger_ms;
                let wheel = zone_frame(zone_effect_spec(*program, "wheel"@), elapsed_ms, trigger);
                let logo = zone_frame(zone_effect_spec(*program, "logo"@), elapsed_ms, trigger);
                match (wheel, logo) {
                    (Ok(w), Ok(l)) => res == Ok::<(RgbColor, RgbColor), SoftwareLightingError>((w, l)),
                    (Err(e), _) => res == Err::<(RgbColor, RgbColor), SoftwareLightingError>(e),
                    (Ok(_), Err(e)) => res == Err::<(RgbColor, RgbColor), SoftwareLightingError>(e),
                }
            }),
    {
        if down_edge {
            self.last_trigger_ms = Some(elapsed_ms);
        }
        proof {
            reveal_strlit("wheel");
            reveal_strlit("logo");
        }
        let wheel = match render_zone(zone_effect(program, "wheel"), elapsed_ms, self.last_trigger_ms) {
            Ok(c) => c,
            Err(e) => return Err(e),
        };
        let logo = match render_zone(zone_effect(program, "logo"), elapsed_ms, self.last_trigger_ms) {
            Ok(c) => c,
            Err(e) => return Err(e),
        };
        Ok((wheel, logo))
    }
}

/// One frame of the foreground color cycle: the wheel cycles from phase 0,
/// the logo from `logo_phase`, and untargeted LEDs are black.
pub fn cycle_frame(target: RgbTargetArg, period_seconds: u64, logo_phase: u16, elapsed_ms: u64) -> (res:
    Result<(RgbColor, RgbColor), SoftwareLightingError>)
    requires
        period_seconds <= 60,
    ensures
        ({
            let wheel_effect = SoftwareLightingEffect::Cycle { period_ms: (period_seconds * 1000) as u64, phase_degrees: 0 };
            let logo_effect = SoftwareLightingEffect::Cycle {
                period_ms: (period_seconds * 1000) as u64,
                phase_degrees: logo_phase,
            };
            match (effect_error(wheel_effect), effect_error(logo_effect)) {
                (Some(e), _) => res == Err::<(RgbColor, RgbColor), SoftwareLightingError>(e),
                (None, Some(e)) => res == Err::<(RgbColor, RgbColor), SoftwareLightingError>(e),
                (None, None) => {
                    let w = effect_color(wheel_effect, elapsed_ms, None);
                    let l = effect_color(logo_effect, elapsed_ms, None);
                    res == Ok::<(RgbColor, RgbColor), SoftwareLightingError>(match target {
                        RgbTargetArg::All => (w, l),
                        RgbTargetArg::Wheel => (w, RgbColor { red: 0, green: 0, blue: 0 }),
                        RgbTargetArg::Logo => (RgbColor { red: 0, green: 0, blue: 0 }, l),
                    })
                },
            }
        }),
{
    let wheel_effect = SoftwareLightingEffect::Cycle { period_ms: period_seconds * 1000, phase_degrees: 0 };
    let logo_effect = SoftwareLightingEffect::Cycle {
        period_ms: period_seconds * 1000,
        phase_degrees: logo_phase,
    };
    let wheel = match wheel_effect.color_at(elapsed_ms, None) {
        Ok(c) => c,
        Err(e) => return Err(e),
    };
    let logo = match logo_effect.color_at(elapsed_ms, None) {
        Ok(c) => c,
        Err(e) => return Err(e),
    };
    Ok(target.colors(wheel, logo))
}

} // verus!

//! Pulsefire Raid runtime macro timelines: validation of an event list and
//! its feature report, and the control record that refers to it.
//!
//! A report holds the header `07 05 04 <slot> 00 00 00 00 00 01`, then three
//! bytes per event (press flag with the high delay byte, the low delay byte,
//! and the key or button code), zero filled. Button 4 uses slot 3 and
//! Button 5 slot 4.
use vstd::prelude::*;
use crate::button::KeyboardUsage;
use crate::pulsefire_raid::{
    control_offset, with_record, PerformanceProfile, PerformanceProfileError, PulsefireRaidControl,
};

verus! {

/// Most transitions in one runtime macro.
pub const MAX_MACRO_EVENTS: usize = 14;

/// Longest delay after one transition, in milliseconds.
pub const MAX_MACRO_DELAY_MS: u16 = 9999;

#[derive(Clone, Copy, Debug, PartialEq, Eq, Structural)]
pub enum PulsefireRaidMacroMouseButton {
    Left,
    Right,
    Middle,
}

#[derive(Clone, Copy, Debug, PartialEq, Eq, Structural)]
pub enum PulsefireRaidMacroInput {
    Keyboard(KeyboardUsage),
    MouseButton(PulsefireRaidMacroMouseButton),
}

#[derive(Clone, Copy, Debug, PartialEq, Eq, Structural)]
pub enum PulsefireRaidMacroState {
    Pressed,
    Released,
}

/// One transition and the delay before the next one.
#[derive(Clone, Copy, Debug, PartialEq, Eq, Structural)]
pub struct PulsefireRaidMacroEvent {
    pub input: PulsefireRaidMacroInput,
    pub state: PulsefireRaidMacroState,
    pub delay_ms: u16,
}

impl PulsefireRaidMacroEvent {
    pub fn new(input: PulsefireRaidMacroInput, state: PulsefireRaidMacroState, delay_ms: u16) -> (event: Self)
        ensures
            event == (PulsefireRaidMacroEvent { input, state, delay_ms }),
    {
        PulsefireRaidMacroEvent { input, state, delay_ms }
    }
}

/// Why an event list has no runtime macro report. Event numbers are one-based.
#[derive(Clone, Copy, Debug, PartialEq, Eq, Structural)]
pub enum PulsefireRaidMacroError {
    UnsupportedControl(PulsefireRaidControl),
    EventCount(usize),
    DelayOutOfRange { event: usize, delay_ms: u16 },
    UnsupportedKey { event: usize, usage: KeyboardUsage },
    AlreadyPressed { event: usize },
    NotPressed { event: usize },
    Unreleased,
}

/// The keyboard usages a runtime record or macro carries: the named keys
/// that key names parse to.
pub open spec fn is_supported_keyboard_usage(usage: KeyboardUsage) -> bool {
    (0x04 <= usage.0 <= 0x73) || (0xE0 <= usage.0 <= 0xE7)
}

pub fn is_supported_runtime_keyboard_usage(usage: KeyboardUsage) -> (supported: bool)
    ensures
        supported == is_supported_keyboard_usage(usage),
{
    (0x04 <= usage.0 && usage.0 <= 0x73) || (0xE0 <= usage.0 && usage.0 <= 0xE7)
}

/// The macro slot of a control that can hold a runtime macro.
pub open spec fn macro_slot(control: PulsefireRaidControl) -> Option<u8> {
    match control {
        PulsefireRaidControl::Button4 => Some(3),
        PulsefireRaidControl::Button5 => Some(4),
        _ => None,
    }
}

/// The code byte of an input: its usage, or `B7`/`B8`/`B9` for the left,
/// right and middle mouse buttons.
pub open spec fn input_code(input: PulsefireRaidMacroInput) -> u8 {
    match input {
        PulsefireRaidMacroInput::Keyboard(usage) => usage.0 as u8,
        PulsefireRaidMacroInput::MouseButton(PulsefireRaidMacroMouseButton::Left) => 0xB7,
        PulsefireRaidMacroInput::MouseButton(PulsefireRaidMacroMouseButton::Right) => 0xB8,
        PulsefireRaidMacroInput::MouseButton(PulsefireRaidMacroMouseButton::Middle) => 0xB9,
    }
}

/// The first problem among events `i..`, given the inputs held down before
/// event `i`.
pub open spec fn timeline_error_from(events: Seq<PulsefireRaidMacroEvent>, i: nat, held: Set<u8>) -> Option<
    PulsefireRaidMacroError,
>
    decreases events.len() - i,
{
    if i >= events.len() {
        if held.is_empty() {
            None
        } else {
            Some(PulsefireRaidMacroError::Unreleased)
        }
    } else {
        let e = events[i as int];
        let code = input_code(e.input);
        let event = (i + 1) as usize;
        if e.delay_ms > 9999 {
            Some(PulsefireRaidMacroError::DelayOutOfRange { event, delay_ms: e.delay_ms })
        } else if e.input matches PulsefireRaidMacroInput::Keyboard(usage) && !is_supported_keyboard_usage(usage) {
            Some(PulsefireRaidMacroError::UnsupportedKey { event, usage: e.input->Keyboard_0 })
        } else if e.state == PulsefireRaidMacroState::Pressed {
            if held.contains(code) {
                Some(PulsefireRaidMacroError::AlreadyPressed { event })
            } else {
                timeline_error_from(events, i + 1, held.insert(code))
            }
        } else {
            if !held.contains(code) {
                Some(PulsefireRaidMacroError::NotPressed { event })
            } else {
                timeline_error_from(events, i + 1, held.remove(code))
            }
        }
    }
}

/// Why a Play Once timeline cannot be stored for `control`, if it cannot.
pub open spec fn timeline_error(control: PulsefireRaidControl, events: Seq<PulsefireRaidMacroEvent>) -> Option<
    PulsefireRaidMacroError,
> {
    if macro_slot(control) is None {
        Some(PulsefireRaidMacroError::UnsupportedControl(control))
    } else if !(1 <= events.len() <= 14) {
        Some(PulsefireRaidMacroError::EventCount(events.len() as usize))
    } else {
        timeline_error_from(events, 0, Set::empty())
    }
}

/// Byte `j` of the record of one event.
pub open spec fn timeline_event_byte(e: PulsefireRaidMacroEvent, j: int) -> u8 {
    if j == 0 {
        ((if e.state == PulsefireRaidMacroState::Pressed {
            0x80int
        } else {
            0
        }) + e.delay_ms / 256) as u8
    } else if j == 1 {
        (e.delay_ms % 256) as u8
    } else {
        input_code(e.input)
    }
}

/// The runtime macro report of a valid timeline in `slot`.
pub open spec fn timeline_report(slot: u8, events: Seq<PulsefireRaidMacroEvent>) -> Seq<u8> {
    Seq::new(
        264,
        |k: int|
            if k < 10 {
                seq![0x07u8, 0x05, 0x04, slot, 0x00, 0x00, 0x00, 0x00, 0x00, 0x01][k]
            } else if k < 10 + 3 * events.len() {
                timeline_event_byte(events[(k - 10) / 3], (k - 10) % 3)
            } else {
                0u8
            },
    )
}

/// A validated runtime macro report for one control.
#[derive(Clone, Debug, PartialEq, Eq)]
pub struct PulsefireRaidMacro {
    control: PulsefireRaidControl,
    report: [u8; 264],
}

impl View for PulsefireRaidMacro {
    type V = Seq<u8>;

    closed spec fn view(&self) -> Seq<u8> {
        self.report@
    }
}

fn input_code_byte(input: PulsefireRaidMacroInput) -> (code: u8)
    requires
        input matches PulsefireRaidMacroInput::Keyboard(usage) ==> usage.0 < 256,
    ensures
        code == input_code(input),
{
    match input {
        PulsefireRaidMacroInput::Keyboard(usage) => usage.0 as u8,
        PulsefireRaidMacroInput::MouseButton(PulsefireRaidMacroMouseButton::Left) => 0xB7,
        PulsefireRaidMacroInput::MouseButton(PulsefireRaidMacroMouseButton::Right) => 0xB8,
        PulsefireRaidMacroInput::MouseButton(PulsefireRaidMacroMouseButton::Middle) => 0xB9,
    }
}

pub open spec fn held_set(held: Seq<bool>) -> Set<u8> {
    Set::new(|c: u8| held[c as int])
}

impl PulsefireRaidMacro {
    pub closed spec fn spec_control(&self) -> PulsefireRaidControl {
        self.control
    }

    /// Validate a Play Once timeline for Button 4 or Button 5 and build its
    /// report.
    pub fn play_once_for(control: PulsefireRaidControl, events: &[PulsefireRaidMacroEvent]) -> (res: Result<
        Self,
        PulsefireRaidMacroError,
    >)
        ensures
            match timeline_error(control, events@) {
                Some(e) => res == Err::<Self, PulsefireRaidMacroError>(e),
                None => res matches Ok(m) && m.spec_control() == control && m@ == timeline_report(
                    macro_slot(control)->Some_0,
                    events@,
                ),
            },
    {
        let slot: u8 = match control {
            PulsefireRaidControl::Button4 => 3,
            PulsefireRaidControl::Button5 => 4,
            _ => {
                return Err(PulsefireRaidMacroError::UnsupportedControl(control));
            },
        };
        if events.len() < 1 || events.len() > MAX_MACRO_EVENTS {
            return Err(PulsefireRaidMacroError::EventCount(events.len()));
        }
        let mut held = [false; 256];
        assert(held_set(held@) =~= Set::<u8>::empty());
        let mut i: usize = 0;
        while i < events.len()
            invariant
                macro_slot(control) is Some,
                1 <= events@.len() <= 14,
                i <= events@.len(),
                held@.len() == 256,
                timeline_error_from(events@, 0, Set::empty()) == timeline_error_from(
                    events@,
                    i as nat,
                    held_set(held@),
                ),
                forall|j: int|
                    0 <= j < i ==> events@[j].delay_ms <= 9999 && (#[trigger] events@[j].input matches PulsefireRaidMacroInput::Keyboard(
                        u,
                    ) ==> is_supported_keyboard_usage(u)),
            decreases events.len() - i,
        {
            let e = events[i];
            if e.delay_ms > MAX_MACRO_DELAY_MS {
                return Err(
                    PulsefireRaidMacroError::DelayOutOfRange { event: i + 1, delay_ms: e.delay_ms },
                );
            }
            if let PulsefireRaidMacroInput::Keyboard(usage) = e.input {
                if !is_supported_runtime_keyboard_usage(usage) {
                    return Err(PulsefireRaidMacroError::UnsupportedKey { event: i + 1, usage });
                }
            }
            let code = input_code_byte(e.input);
            let ghost before = held@;
            match e.state {
                PulsefireRaidMacroState::Pressed => {
                    if held[code as usize] {
                        return Err(PulsefireRaidMacroError::AlreadyPressed { event: i + 1 });
                    }
                    held[code as usize] = true;
                    assert(held_set(held@) =~= held_set(before).insert(code));
                },
                PulsefireRaidMacroState::Released => {
                    if !held[code as usize] {
                        return Err(PulsefireRaidMacroError::NotPressed { event: i + 1 });
                    }
                    held[code as usize] = false;
                    assert(held_set(held@) =~= held_set(before).remove(code));
                },
            }
            i += 1;
        }
        let mut c: usize = 0;
        while c < 256
            invariant
                c <= 256,
                held@.len() == 256,
                macro_slot(control) is Some,
                1 <= events@.len() <= 14,
                timeline_error_from(events@, 0, Set::empty()) == timeline_error_from(
                    events@,
                    events@.len(),
                    held_set(held@),
                ),
                forall|k: int| 0 <= k < c ==> !held@[k],
            decreases 256 - c,
        {
            if held[c] {
                assert(held_set(held@).contains(c as u8));
                return Err(PulsefireRaidMacroError::Unreleased);
            }
            c += 1;
        }
        assert(held_set(held@) =~= Set::<u8>::empty());
        let mut report = [0u8; 264];
        report[0] = 0x07;
        report[1] = 0x05;
        report[2] = 0x04;
        report[3] = slot;
        report[9] = 0x01;
        let ghost header = seq![0x07u8, 0x05, 0x04, slot, 0x00, 0x00, 0x00, 0x00, 0x00, 0x01];
        let mut k: usize = 0;
        while k < events.len()
            invariant
                1 <= events@.len() <= 14,
                k <= events@.len(),
                header == seq![0x07u8, 0x05, 0x04, slot, 0x00, 0x00, 0x00, 0x00, 0x00, 0x01],
                forall|j: int|
                    0 <= j < events@.len() ==> events@[j].delay_ms <= 9999 && (#[trigger] events@[j].input matches PulsefireRaidMacroInput::Keyboard(
                        u,
                    ) ==> is_supported_keyboard_usage(u)),
                forall|b: int|
                    0 <= b < 264 ==> #[trigger] report@[b] == (if b < 10 {
                        header[b]
                    } else if b < 10 + 3 * k {
                        timeline_event_byte(events@[(b - 10) / 3], (b - 10) % 3)
                    } else {
                        0u8
                    }),
            decreases events.len() - k,
        {
            let e = events[k];
            let high = (e.delay_ms / 256) as u8;
            let low = (e.delay_ms % 256) as u8;
            let state: u8 = match e.state {
                PulsefireRaidMacroState::Pressed => 0x80,
                PulsefireRaidMacroState::Released => 0x00,
            };
            assert(high < 0x80);
            assert((state | high) == state + high) by (bit_vector)
                requires
                    high < 0x80u8,
                    state == 0x80u8 || state == 0u8,
            ;
            let offset = 10 + 3 * k;
            report[offset] = state | high;
            report[offset + 1] = low;
            report[offset + 2] = input_code_byte(e.input);
            k += 1;
        }
        assert(report@ =~= timeline_report(slot, events@));
        Ok(PulsefireRaidMacro { control, report })
    }

    pub fn control(&self) -> (control: PulsefireRaidControl)
        ensures
            control == self.spec_control(),
    {
        self.control
    }

    pub fn as_bytes(&self) -> (bytes: &[u8; 264])
        ensures
            bytes@ == self@,
    {
        &self.report
    }

    /// The same definition addressed to the onboard section: only the
    /// section byte at offset `0x02` becomes `01`.
    pub fn to_onboard_report(&self) -> (report: [u8; 264])
        ensures
            report@ == self@.update(2, 0x01),
    {
        let mut report = self.report;
        report[2] = 0x01;
        report
    }

    /// Point the control's record at this macro's slot: `53 00 00 <slot>`.
    pub fn apply_to_profile(&self, profile: &mut PerformanceProfile) -> (res: Result<(), PerformanceProfileError>)
        requires
            macro_slot(self.spec_control()) is Some,
        ensures
            res is Ok,
            final(profile)@ == with_record(
                old(profile)@,
                control_offset(self.spec_control()),
                seq![0x53u8, 0x00, 0x00, macro_slot(self.spec_control())->Some_0],
            ),
            final(profile).spec_kind() == old(profile).spec_kind(),
            final(profile).spec_section() == old(profile).spec_section(),
    {
        let slot: u8 = match self.control {
            PulsefireRaidControl::Button4 => 3,
            _ => 4,
        };
        profile.store_record(self.control, [0x53, 0x00, 0x00, slot]);
        Ok(())
    }
}

} // verus!

//! The messages of the library's errors, as a user of the tools reads them.
use vstd::prelude::*;
use crate::button::{KeyState, KeyboardMacroEvent, KeyboardUsageParseError, MacroPlayback};
use crate::capability::dpi_error_text;
use crate::capture::CaptureParseError;
use crate::cli::LightingProgramError;
use crate::cli::playback_debug_text;
use crate::driver::PulsefireRaidError;
use crate::hid::{hex_list_items, push_hex_list, HidError};
use crate::hid_descriptor::DescriptorError;
use crate::lighting::SoftwareLightingError;
use crate::ngenuity::{NgenuityImportError, NgenuityPresetError};
use crate::ngenuity_diff::{debug_quoted, debug_text};
use crate::profile_text::{binding_debug, control_debug, control_debug_str, profile_error_text, push_binding_debug};
use crate::pulsefire_raid::{ConfirmedMacroError, ProfileImageKind, ProfileSection};
use crate::discovery_report::{push_signed_decimal, signed_decimal};
use crate::raid_macro::PulsefireRaidMacroError;
use crate::text::{
    byte_hex_upper, decimal_chars, hex_upper_padded, push_byte_hex_upper, push_decimal,
    push_hex_upper_padded, string_push_str, u16_hex_upper,
};

verus! {

/// The message of a lighting program error; a zone's error names the zone
/// and then gives the effect's own message.
pub open spec fn lighting_error_text(e: SoftwareLightingError) -> Seq<char>
    decreases e,
{
    match e {
        SoftwareLightingError::DurationOutOfRange(v) => "lighting duration must be between 1 and 3600 seconds; got "@
            + decimal_chars(v as nat),
        SoftwareLightingError::FrameIntervalOutOfRange(v) => "frame interval must be between 20 and 1000 ms; got "@
            + decimal_chars(v as nat),
        SoftwareLightingError::NoZones => "lighting program must contain at least one zone"@,
        SoftwareLightingError::PeriodOutOfRange(v) => "lighting period must be between 100 and 60000 ms; got "@
            + decimal_chars(v as nat),
        SoftwareLightingError::PhaseOutOfRange(v) => "lighting phase must be from 0 through 359 degrees; got "@
            + decimal_chars(v as nat),
        SoftwareLightingError::ConfettiStepOutOfRange(v) => "confetti step must be between 50 and 5000 ms; got "@
            + decimal_chars(v as nat),
        SoftwareLightingError::FadeOutOfRange(v) => "triggered fade must last between 50 and 10000 ms; got "@
            + decimal_chars(v as nat),
        SoftwareLightingError::InvalidZoneEffect { zone, source } => "invalid effect for lighting zone "@
            + debug_text(zone@) + ": "@ + lighting_error_text(*source),
    }
}

impl SoftwareLightingError {
    pub fn to_string(&self) -> (text: String)
        ensures
            text@ == lighting_error_text(*self),
        decreases *self,
    {
        let mut text = String::new();
        match self {
            SoftwareLightingError::DurationOutOfRange(v) => {
                string_push_str(&mut text, "lighting duration must be between 1 and 3600 seconds; got ");
                push_decimal(&mut text, *v);
            },
            SoftwareLightingError::FrameIntervalOutOfRange(v) => {
                string_push_str(&mut text, "frame interval must be between 20 and 1000 ms; got ");
                push_decimal(&mut text, *v);
            },
            SoftwareLightingError::NoZones => {
                string_push_str(&mut text, "lighting program must contain at least one zone");
            },
            SoftwareLightingError::PeriodOutOfRange(v) => {
                string_push_str(&mut text, "lighting period must be between 100 and 60000 ms; got ");
                push_decimal(&mut text, *v);
            },
            SoftwareLightingError::PhaseOutOfRange(v) => {
                string_push_str(&mut text, "lighting phase must be from 0 through 359 degrees; got ");
                push_decimal(&mut text, *v as u64);
            },
            SoftwareLightingError::ConfettiStepOutOfRange(v) => {
                string_push_str(&mut text, "confetti step must be between 50 and 5000 ms; got ");
                push_decimal(&mut text, *v);
            },
            SoftwareLightingError::FadeOutOfRange(v) => {
                string_push_str(&mut text, "triggered fade must last between 50 and 10000 ms; got ");
                push_decimal(&mut text, *v);
            },
            SoftwareLightingError::InvalidZoneEffect { zone, source } => {
                string_push_str(&mut text, "invalid effect for lighting zone ");
                string_push_str(&mut text, debug_quoted(zone.as_str()).as_str());
                string_push_str(&mut text, ": ");
                let inner: &SoftwareLightingError = source;
                string_push_str(&mut text, inner.to_string().as_str());
            },
        }
        text
    }
}

/// The message of a capture parse error.
pub open spec fn capture_error_text(e: CaptureParseError) -> Seq<char> {
    match e {
        CaptureParseError::EmptyReport { line } => "line "@ + decimal_chars(line as nat)
            + ": expected at least one hexadecimal byte"@,
        CaptureParseError::InvalidByte { line, token } => "line "@ + decimal_chars(line as nat)
            + ": invalid byte `"@ + token@ + "`; use two hexadecimal digits"@,
    }
}

impl CaptureParseError {
    pub fn to_string(&self) -> (text: String)
        ensures
            text@ == capture_error_text(*self),
    {
        let mut text = "line ".to_owned();
        match self {
            CaptureParseError::EmptyReport { line } => {
                push_decimal(&mut text, *line as u64);
                string_push_str(&mut text, ": expected at least one hexadecimal byte");
            },
            CaptureParseError::InvalidByte { line, token } => {
                push_decimal(&mut text, *line as u64);
                string_push_str(&mut text, ": invalid byte `");
                string_push_str(&mut text, token.as_str());
                string_push_str(&mut text, "`; use two hexadecimal digits");
            },
        }
        text
    }
}

/// The message of a report descriptor error.
pub open spec fn descriptor_error_text(e: DescriptorError) -> Seq<char> {
    match e {
        DescriptorError::TruncatedShortItem { offset } => "truncated HID short item at byte "@
            + decimal_chars(offset as nat),
        DescriptorError::TruncatedLongItem { offset } => "truncated HID long item at byte "@
            + decimal_chars(offset as nat),
        DescriptorError::GlobalStackUnderflow { offset } => "HID global state stack underflow at byte "@
            + decimal_chars(offset as nat),
        DescriptorError::ReportSizeOverflow { offset } => "HID report size multiplied by count overflows at byte "@
            + decimal_chars(offset as nat),
    }
}

impl DescriptorError {
    pub fn to_string(&self) -> (text: String)
        ensures
            text@ == descriptor_error_text(*self),
    {
        let mut text = String::new();
        let offset = match self {
            DescriptorError::TruncatedShortItem { offset } => {
                string_push_str(&mut text, "truncated HID short item at byte ");
                *offset
            },
            DescriptorError::TruncatedLongItem { offset } => {
                string_push_str(&mut text, "truncated HID long item at byte ");
                *offset
            },
            DescriptorError::GlobalStackUnderflow { offset } => {
                string_push_str(&mut text, "HID global state stack underflow at byte ");
                *offset
            },
            DescriptorError::ReportSizeOverflow { offset } => {
                string_push_str(&mut text, "HID report size multiplied by count overflows at byte ");
                *offset
            },
        };
        push_decimal(&mut text, offset as u64);
        text
    }
}

/// The message of a preset parse error.
pub open spec fn preset_error_text(e: NgenuityPresetError) -> Seq<char> {
    match e {
        NgenuityPresetError::Truncated { context, offset } => "NGENUITY preset is truncated while reading "@
            + context@ + " at offset 0x"@ + hex_upper_padded(offset as nat, 0),
        NgenuityPresetError::UnknownHeader(h) => "unknown NGENUITY preset header 0x"@ + hex_upper_padded(
            h as nat,
            8,
        ),
        NgenuityPresetError::InvalidEmbeddedLength { declared, available } => "embedded preset length "@
            + decimal_chars(declared as nat) + " exceeds the "@ + decimal_chars(available as nat)
            + " available bytes"@,
        NgenuityPresetError::UnsupportedVersion(v) => "unsupported NGENUITY preset version "@ + decimal_chars(
            v as nat,
        ) + "; only version 40 is decoded"@,
        NgenuityPresetError::InvalidStringLength => "NGENUITY string length uses an invalid 7-bit integer"@,
        NgenuityPresetError::InvalidUtf8(what) => "NGENUITY preset contains invalid UTF-8 in "@ + what@,
        NgenuityPresetError::MissingMousePreset => "NGENUITY mouse preset block was not found"@,
        NgenuityPresetError::InvalidItemCount { name, count } => "NGENUITY collection "@ + name@
            + " contains an unreasonable item count "@ + decimal_chars(count as nat),
        NgenuityPresetError::WrongObjectHeader { name, expected, offset } => "expected "@ + name@
            + " header 0x"@ + hex_upper_padded(expected as nat, 8) + " at offset 0x"@ + hex_upper_padded(
            offset as nat,
            0,
        ),
    }
}

impl NgenuityPresetError {
    pub fn to_string(&self) -> (text: String)
        ensures
            text@ == preset_error_text(*self),
    {
        let mut text = String::new();
        match self {
            NgenuityPresetError::Truncated { context, offset } => {
                string_push_str(&mut text, "NGENUITY preset is truncated while reading ");
                string_push_str(&mut text, context);
                string_push_str(&mut text, " at offset 0x");
                push_hex_upper_padded(&mut text, *offset as u64, 0);
            },
            NgenuityPresetError::UnknownHeader(h) => {
                string_push_str(&mut text, "unknown NGENUITY preset header 0x");
                push_hex_upper_padded(&mut text, *h as u64, 8);
            },
            NgenuityPresetError::InvalidEmbeddedLength { declared, available } => {
                string_push_str(&mut text, "embedded preset length ");
                push_decimal(&mut text, *declared as u64);
                string_push_str(&mut text, " exceeds the ");
                push_decimal(&mut text, *available as u64);
                string_push_str(&mut text, " available bytes");
            },
            NgenuityPresetError::UnsupportedVersion(v) => {
                string_push_str(&mut text, "unsupported NGENUITY preset version ");
                push_decimal(&mut text, *v as u64);
                string_push_str(&mut text, "; only version 40 is decoded");
            },
            NgenuityPresetError::InvalidStringLength => {
                string_push_str(&mut text, "NGENUITY string length uses an invalid 7-bit integer");
            },
            NgenuityPresetError::InvalidUtf8(what) => {
                string_push_str(&mut text, "NGENUITY preset contains invalid UTF-8 in ");
                string_push_str(&mut text, what);
            },
            NgenuityPresetError::MissingMousePreset => {
                string_push_str(&mut text, "NGENUITY mouse preset block was not found");
            },
            NgenuityPresetError::InvalidItemCount { name, count } => {
                string_push_str(&mut text, "NGENUITY collection ");
                string_push_str(&mut text, name);
                string_push_str(&mut text, " contains an unreasonable item count ");
                push_decimal(&mut text, *count as u64);
            },
            NgenuityPresetError::WrongObjectHeader { name, expected, offset } => {
                string_push_str(&mut text, "expected ");
                string_push_str(&mut text, name);
                string_push_str(&mut text, " header 0x");
                push_hex_upper_padded(&mut text, *expected as u64, 8);
                string_push_str(&mut text, " at offset 0x");
                push_hex_upper_padded(&mut text, *offset as u64, 0);
            },
        }
        text
    }
}

/// The message of a preset import error; a macro is named as `{:?}` shows
/// its name.
pub open spec fn import_error_text(e: NgenuityImportError) -> Seq<char> {
    match e {
        NgenuityImportError::UnsupportedPlayback { name, mode } => "macro "@ + debug_text(name@)
            + " uses unconfirmed NGENUITY playback mode "@ + decimal_chars(mode as nat),
        NgenuityImportError::UnsupportedMacroItem { name, event, item_type, action, state } => "macro "@
            + debug_text(name@) + " event "@ + decimal_chars(event as nat)
            + " has unsupported type/action/state "@ + decimal_chars(item_type as nat) + "/"@
            + decimal_chars(action as nat) + "/"@ + decimal_chars(state as nat),
        NgenuityImportError::UnknownKeyboardUsage { name, event, usage } => "macro "@ + debug_text(name@)
            + " event "@ + decimal_chars(event as nat) + " uses unknown keyboard usage 0x"@ + u16_hex_upper(
            usage,
        ),
        NgenuityImportError::TimingOutOfRange { name, event, timing_ms } => "macro "@ + debug_text(name@)
            + " event "@ + decimal_chars(event as nat) + " timing "@ + decimal_chars(timing_ms as nat)
            + " ms exceeds the portable 16-bit range"@,
    }
}

impl NgenuityImportError {
    pub fn to_string(&self) -> (text: String)
        ensures
            text@ == import_error_text(*self),
    {
        let mut text = "macro ".to_owned();
        match self {
            NgenuityImportError::UnsupportedPlayback { name, mode } => {
                string_push_str(&mut text, debug_quoted(name.as_str()).as_str());
                string_push_str(&mut text, " uses unconfirmed NGENUITY playback mode ");
                push_decimal(&mut text, *mode as u64);
            },
            NgenuityImportError::UnsupportedMacroItem { name, event, item_type, action, state } => {
                string_push_str(&mut text, debug_quoted(name.as_str()).as_str());
                string_push_str(&mut text, " event ");
                push_decimal(&mut text, *event as u64);
                string_push_str(&mut text, " has unsupported type/action/state ");
                push_decimal(&mut text, *item_type as u64);
                string_push_str(&mut text, "/");
                push_decimal(&mut text, *action as u64);
                string_push_str(&mut text, "/");
                push_decimal(&mut text, *state as u64);
            },
            NgenuityImportError::UnknownKeyboardUsage { name, event, usage } => {
                string_push_str(&mut text, debug_quoted(name.as_str()).as_str());
                string_push_str(&mut text, " event ");
                push_decimal(&mut text, *event as u64);
                string_push_str(&mut text, " uses unknown keyboard usage 0x");
                crate::text::push_u16_hex_upper(&mut text, *usage);
            },
            NgenuityImportError::TimingOutOfRange { name, event, timing_ms } => {
                string_push_str(&mut text, debug_quoted(name.as_str()).as_str());
                string_push_str(&mut text, " event ");
                push_decimal(&mut text, *event as u64);
                string_push_str(&mut text, " timing ");
                push_decimal(&mut text, *timing_ms as u64);
                string_push_str(&mut text, " ms exceeds the portable 16-bit range");
            },
        }
        text
    }
}

/// `{:?}` of a keyboard macro event, as the derived `Debug` prints it.
pub open spec fn keyboard_event_debug(e: KeyboardMacroEvent) -> Seq<char> {
    "KeyboardMacroEvent { usage: KeyboardUsage("@ + decimal_chars(e.usage.0 as nat) + "), state: "@ + (
    match e.state {
        KeyState::Pressed => "Pressed"@,
        KeyState::Released => "Released"@,
    }) + ", timing_ms: "@ + decimal_chars(e.timing_ms as nat) + " }"@
}

/// The items of `{:?}` of a list of keyboard macro events, comma separated.
pub open spec fn keyboard_events_debug_items(events: Seq<KeyboardMacroEvent>) -> Seq<char>
    decreases events.len(),
{
    if events.len() == 0 {
        seq![]
    } else if events.len() == 1 {
        keyboard_event_debug(events[0])
    } else {
        keyboard_events_debug_items(events.drop_last()) + ", "@ + keyboard_event_debug(events.last())
    }
}

fn push_keyboard_event_debug(text: &mut String, e: KeyboardMacroEvent)
    ensures
        final(text)@ == old(text)@ + keyboard_event_debug(e),
{
    string_push_str(text, "KeyboardMacroEvent { usage: KeyboardUsage(");
    push_decimal(text, e.usage.0 as u64);
    string_push_str(text, "), state: ");
    match e.state {
        KeyState::Pressed => string_push_str(text, "Pressed"),
        KeyState::Released => string_push_str(text, "Released"),
    }
    string_push_str(text, ", timing_ms: ");
    push_decimal(text, e.timing_ms as u64);
    string_push_str(text, " }");
}

/// The message of a confirmed-macro error.
pub open spec fn confirmed_macro_error_text(e: ConfirmedMacroError) -> Seq<char> {
    match e {
        ConfirmedMacroError::WrongLength(n) => "expected a 264-byte Pulsefire Raid macro report, got "@
            + decimal_chars(n as nat) + " bytes"@,
        ConfirmedMacroError::UnconfirmedByte { offset, expected, actual } => "byte 0x"@ + hex_upper_padded(
            offset as nat,
            2,
        ) + " is not part of the confirmed minimal macro: expected 0x"@ + byte_hex_upper(expected)
            + ", got 0x"@ + byte_hex_upper(actual),
        ConfirmedMacroError::UnconfirmedEvents(events) => "keyboard macro events ["@
            + keyboard_events_debug_items(events@) + "] have not been confirmed for Pulsefire Raid macros"@,
        ConfirmedMacroError::UnsupportedProfileSection => "minimal macro binding is confirmed only for the runtime profile"@,
    }
}

impl ConfirmedMacroError {
    pub fn to_string(&self) -> (text: String)
        ensures
            text@ == confirmed_macro_error_text(*self),
    {
        let mut text = String::new();
        match self {
            ConfirmedMacroError::WrongLength(n) => {
                string_push_str(&mut text, "expected a 264-byte Pulsefire Raid macro report, got ");
                push_decimal(&mut text, *n as u64);
                string_push_str(&mut text, " bytes");
            },
            ConfirmedMacroError::UnconfirmedByte { offset, expected, actual } => {
                string_push_str(&mut text, "byte 0x");
                push_hex_upper_padded(&mut text, *offset as u64, 2);
                string_push_str(&mut text, " is not part of the confirmed minimal macro: expected 0x");
                push_byte_hex_upper(&mut text, *expected);
                string_push_str(&mut text, ", got 0x");
                push_byte_hex_upper(&mut text, *actual);
            },
            ConfirmedMacroError::UnconfirmedEvents(events) => {
                string_push_str(&mut text, "keyboard macro events [");
                let ghost start = text@;
                let mut i: usize = 0;
                while i < events.len()
                    invariant
                        i <= events@.len(),
                        text@ == start + keyboard_events_debug_items(events@.take(i as int)),
                    decreases events.len() - i,
                {
                    if i != 0 {
                        string_push_str(&mut text, ", ");
                    }
                    push_keyboard_event_debug(&mut text, events[i]);
                    i += 1;
                    assert(events@.take(i as int).drop_last() =~= events@.take(i - 1));
                }
                assert(events@.take(i as int) =~= events@);
                string_push_str(&mut text, "] have not been confirmed for Pulsefire Raid macros");
            },
            ConfirmedMacroError::UnsupportedProfileSection => {
                string_push_str(&mut text, "minimal macro binding is confirmed only for the runtime profile");
            },
        }
        text
    }
}

/// The message of a runtime macro timeline error. Event numbers are
/// one-based.
pub open spec fn raid_macro_error_text(e: PulsefireRaidMacroError) -> Seq<char> {
    match e {
        PulsefireRaidMacroError::UnsupportedControl(c) => "runtime macros are not supported on "@
            + control_debug(c),
        PulsefireRaidMacroError::EventCount(n) => "a runtime macro holds 1 to 14 events; got "@
            + decimal_chars(n as nat),
        PulsefireRaidMacroError::DelayOutOfRange { event, delay_ms } => "macro event "@ + decimal_chars(
            event as nat,
        ) + " delay "@ + decimal_chars(delay_ms as nat) + " ms exceeds 9999 ms"@,
        PulsefireRaidMacroError::UnsupportedKey { event, usage } => "macro event "@ + decimal_chars(
            event as nat,
        ) + " uses unsupported keyboard usage 0x"@ + u16_hex_upper(usage.0),
        PulsefireRaidMacroError::AlreadyPressed { event } => "macro event "@ + decimal_chars(event as nat)
            + " presses an input that is already down"@,
        PulsefireRaidMacroError::NotPressed { event } => "macro event "@ + decimal_chars(event as nat)
            + " releases an input that is not down"@,
        PulsefireRaidMacroError::Unreleased => "the macro ends with an input still pressed"@,
    }
}

impl PulsefireRaidMacroError {
    pub fn to_string(&self) -> (text: String)
        ensures
            text@ == raid_macro_error_text(*self),
    {
        let mut text = String::new();
        match self {
            PulsefireRaidMacroError::UnsupportedControl(c) => {
                string_push_str(&mut text, "runtime macros are not supported on ");
                string_push_str(&mut text, control_debug_str(*c));
            },
            PulsefireRaidMacroError::EventCount(n) => {
                string_push_str(&mut text, "a runtime macro holds 1 to 14 events; got ");
                push_decimal(&mut text, *n as u64);
            },
            PulsefireRaidMacroError::DelayOutOfRange { event, delay_ms } => {
                string_push_str(&mut text, "macro event ");
                push_decimal(&mut text, *event as u64);
                string_push_str(&mut text, " delay ");
                push_decimal(&mut text, *delay_ms as u64);
                string_push_str(&mut text, " ms exceeds 9999 ms");
            },
            PulsefireRaidMacroError::UnsupportedKey { event, usage } => {
                string_push_str(&mut text, "macro event ");
                push_decimal(&mut text, *event as u64);
                string_push_str(&mut text, " uses unsupported keyboard usage 0x");
                crate::text::push_u16_hex_upper(&mut text, usage.0);
            },
            PulsefireRaidMacroError::AlreadyPressed { event } => {
                string_push_str(&mut text, "macro event ");
                push_decimal(&mut text, *event as u64);
                string_push_str(&mut text, " presses an input that is already down");
            },
            PulsefireRaidMacroError::NotPressed { event } => {
                string_push_str(&mut text, "macro event ");
                push_decimal(&mut text, *event as u64);
                string_push_str(&mut text, " releases an input that is not down");
            },
            PulsefireRaidMacroError::Unreleased => {
                string_push_str(&mut text, "the macro ends with an input still pressed");
            },
        }
        text
    }
}

/// The message of a HID error.
pub open spec fn hid_error_text(e: HidError) -> Seq<char> {
    match e {
        HidError::Backend(m) => "HID backend error: "@ + m@,
        HidError::InvalidPath => "HID path contains an embedded NUL byte"@,
        HidError::Transport(m) => "HID transport error: "@ + m@,
    }
}

/// The message of a driver error; a wrapped error gives its own message.
pub open spec fn driver_error_text(e: PulsefireRaidError) -> Seq<char> {
    match e {
        PulsefireRaidError::WrongInterface(n) => "Pulsefire Raid configuration requires HID interface 1, got "@
            + signed_decimal(n as int),
        PulsefireRaidError::ShortFeatureWrite { expected, actual } => "feature report write was short: expected "@
            + decimal_chars(expected as nat) + " bytes, wrote "@ + decimal_chars(actual as nat),
        PulsefireRaidError::WrongProfileResponseLength(n) => "expected a 264-byte Pulsefire Raid profile response, got "@
            + decimal_chars(n as nat) + " bytes"@,
        PulsefireRaidError::WrongProfileResponse { kind, section } => "unexpected profile read response: got "@
            + (match kind {
            ProfileImageKind::HostWrite => "HostWrite"@,
            ProfileImageKind::DeviceReadResponse => "DeviceReadResponse"@,
        }) + " "@ + (match section {
            ProfileSection::Onboard => "Onboard"@,
            ProfileSection::Runtime => "Runtime"@,
        }),
        PulsefireRaidError::WrongSaveAcknowledgementLength { opcode, actual } => "save acknowledgement for opcode 0x"@
            + byte_hex_upper(opcode) + " was "@ + decimal_chars(actual as nat) + " bytes, expected 8"@,
        PulsefireRaidError::UnexpectedSaveAcknowledgement { opcode, actual } => "unexpected save acknowledgement for opcode 0x"@
            + byte_hex_upper(opcode) + ": "@ + seq!['['] + hex_list_items(actual@) + seq![']'],
        PulsefireRaidError::MissingOnboardMacroDefinition => "runtime Button 5 references a macro; provide its definition to save it onboard"@,
        PulsefireRaidError::UnexpectedOnboardMacroDefinition => "a macro definition was supplied, but runtime Button 5 does not reference a macro"@,
        PulsefireRaidError::WrongAcknowledgementInterface(n) => "Pulsefire Raid save acknowledgements require HID interface 2, got "@
            + signed_decimal(n as int),
        PulsefireRaidError::DpiStageNotFound { stage, stage_count } => "DPI stage "@ + decimal_chars(
            stage as nat,
        ) + " does not exist; the runtime profile has "@ + decimal_chars(stage_count as nat) + " stage(s)"@,
        PulsefireRaidError::EmptyDpiStageUpdate => "DPI stage update must change its DPI, color, or active state"@,
        PulsefireRaidError::TooManyDpiStages(n) => "Pulsefire Raid supports at most "@ + decimal_chars(
            n as nat,
        ) + " DPI stages"@,
        PulsefireRaidError::CannotRemoveOnlyDpiStage => "the only remaining DPI stage cannot be removed"@,
        PulsefireRaidError::UnconfirmedRuntimeButtonBinding { control, binding } => "runtime binding "@
            + binding_debug(binding) + " is not capture-backed for "@ + control_debug(control),
        PulsefireRaidError::UnconfirmedMacroControl(c) => "runtime macros are not capture-backed for "@
            + control_debug(c) + "; only Button 4 and Button 5 are supported"@,
        PulsefireRaidError::UnsupportedMacroPlayback(p) => "Pulsefire Raid macro playback "@
            + playback_debug_text(p) + " is not capture-backed; only once is supported"@,
        PulsefireRaidError::UnknownMacroKey(k) => "unknown macro keyboard key "@ + debug_text(k@),
        PulsefireRaidError::UnknownMacroMouseButton(b) => "unknown or unconfirmed macro mouse button "@
            + debug_text(b@) + "; use left, right or middle"@,
        PulsefireRaidError::InvalidMacro(m) => raid_macro_error_text(m),
        PulsefireRaidError::InvalidDpi(d) => dpi_error_text(d),
        PulsefireRaidError::InvalidProfile(p) => profile_error_text(p),
        PulsefireRaidError::Transport(h) => hid_error_text(h),
    }
}

impl PulsefireRaidError {
    pub fn to_string(&self) -> (text: String)
        ensures
            text@ == driver_error_text(*self),
    {
        let mut text = String::new();
        match self {
            PulsefireRaidError::WrongInterface(n) => {
                string_push_str(&mut text, "Pulsefire Raid configuration requires HID interface 1, got ");
                push_signed_decimal(&mut text, *n);
            },
            PulsefireRaidError::ShortFeatureWrite { expected, actual } => {
                string_push_str(&mut text, "feature report write was short: expected ");
                push_decimal(&mut text, *expected as u64);
                string_push_str(&mut text, " bytes, wrote ");
                push_decimal(&mut text, *actual as u64);
            },
            PulsefireRaidError::WrongProfileResponseLength(n) => {
                string_push_str(&mut text, "expected a 264-byte Pulsefire Raid profile response, got ");
                push_decimal(&mut text, *n as u64);
                string_push_str(&mut text, " bytes");
            },
            PulsefireRaidError::WrongProfileResponse { kind, section } => {
                string_push_str(&mut text, "unexpected profile read response: got ");
                match kind {
                    ProfileImageKind::HostWrite => string_push_str(&mut text, "HostWrite"),
                    ProfileImageKind::DeviceReadResponse => string_push_str(&mut text, "DeviceReadResponse"),
                }
                string_push_str(&mut text, " ");
                match section {
                    ProfileSection::Onboard => string_push_str(&mut text, "Onboard"),
                    ProfileSection::Runtime => string_push_str(&mut text, "Runtime"),
                }
            },
            PulsefireRaidError::WrongSaveAcknowledgementLength { opcode, actual } => {
                string_push_str(&mut text, "save acknowledgement for opcode 0x");
                push_byte_hex_upper(&mut text, *opcode);
                string_push_str(&mut text, " was ");
                push_decimal(&mut text, *actual as u64);
                string_push_str(&mut text, " bytes, expected 8");
            },
            PulsefireRaidError::UnexpectedSaveAcknowledgement { opcode, actual } => {
                string_push_str(&mut text, "unexpected save acknowledgement for opcode 0x");
                push_byte_hex_upper(&mut text, *opcode);
                string_push_str(&mut text, ": ");
                push_hex_list(&mut text, actual);
            },
            PulsefireRaidError::MissingOnboardMacroDefinition => {
                string_push_str(&mut text, "runtime Button 5 references a macro; provide its definition to save it onboard");
            },
            PulsefireRaidError::UnexpectedOnboardMacroDefinition => {
                string_push_str(&mut text, "a macro definition was supplied, but runtime Button 5 does not reference a macro");
            },
            PulsefireRaidError::WrongAcknowledgementInterface(n) => {
                string_push_str(&mut text, "Pulsefire Raid save acknowledgements require HID interface 2, got ");
                push_signed_decimal(&mut text, *n);
            },
            PulsefireRaidError::DpiStageNotFound { stage, stage_count } => {
                string_push_str(&mut text, "DPI stage ");
                push_decimal(&mut text, *stage as u64);
                string_push_str(&mut text, " does not exist; the runtime profile has ");
                push_decimal(&mut text, *stage_count as u64);
                string_push_str(&mut text, " stage(s)");
            },
            PulsefireRaidError::EmptyDpiStageUpdate => {
                string_push_str(&mut text, "DPI stage update must change its DPI, color, or active state");
            },
            PulsefireRaidError::TooManyDpiStages(n) => {
                string_push_str(&mut text, "Pulsefire Raid supports at most ");
                push_decimal(&mut text, *n as u64);
                string_push_str(&mut text, " DPI stages");
            },
            PulsefireRaidError::CannotRemoveOnlyDpiStage => {
                string_push_str(&mut text, "the only remaining DPI stage cannot be removed");
            },
            PulsefireRaidError::UnconfirmedRuntimeButtonBinding { control, binding } => {
                string_push_str(&mut text, "runtime binding ");
                push_binding_debug(&mut text, binding);
                string_push_str(&mut text, " is not capture-backed for ");
                string_push_str(&mut text, control_debug_str(*control));
            },
            PulsefireRaidError::UnconfirmedMacroControl(c) => {
                string_push_str(&mut text, "runtime macros are not capture-backed for ");
                string_push_str(&mut text, control_debug_str(*c));
                string_push_str(&mut text, "; only Button 4 and Button 5 are supported");
            },
            PulsefireRaidError::UnsupportedMacroPlayback(p) => {
                string_push_str(&mut text, "Pulsefire Raid macro playback ");
                match p {
                    MacroPlayback::Once => string_push_str(&mut text, "Once"),
                    MacroPlayback::ToggleRepeat => string_push_str(&mut text, "ToggleRepeat"),
                    MacroPlayback::RepeatWhileHeld => string_push_str(&mut text, "RepeatWhileHeld"),
                }
                string_push_str(&mut text, " is not capture-backed; only once is supported");
            },
            PulsefireRaidError::UnknownMacroKey(k) => {
                string_push_str(&mut text, "unknown macro keyboard key ");
                string_push_str(&mut text, debug_quoted(k.as_str()).as_str());
            },
            PulsefireRaidError::UnknownMacroMouseButton(b) => {
                string_push_str(&mut text, "unknown or unconfirmed macro mouse button ");
                string_push_str(&mut text, debug_quoted(b.as_str()).as_str());
                string_push_str(&mut text, "; use left, right or middle");
            },
            PulsefireRaidError::InvalidMacro(m) => {
                text = m.to_string();
            },
            PulsefireRaidError::InvalidDpi(d) => {
                text = d.to_string();
            },
            PulsefireRaidError::InvalidProfile(p) => {
                text = p.to_string();
            },
            PulsefireRaidError::Transport(h) => {
                text = h.to_string();
            },
        }
        text
    }
}

/// The message of a lighting program that cannot run on the Pulsefire Raid.
pub open spec fn lighting_program_error_text(e: LightingProgramError) -> Seq<char> {
    match e {
        LightingProgramError::Invalid(inner) => lighting_error_text(inner),
        LightingProgramError::UnknownZone(zone) => "Pulsefire Raid lighting program contains unknown zone "@
            + debug_text(zone@) + "; use wheel or logo"@,
        LightingProgramError::TriggersUnsupported => "triggered-fade currently requires the Windows system mouse-event adapter"@,
    }
}

impl LightingProgramError {
    pub fn to_string(&self) -> (text: String)
        ensures
            text@ == lighting_program_error_text(*self),
    {
        match self {
            LightingProgramError::Invalid(inner) => inner.to_string(),
            LightingProgramError::UnknownZone(zone) => {
                let mut text = "Pulsefire Raid lighting program contains unknown zone ".to_owned();
                string_push_str(&mut text, debug_quoted(zone.as_str()).as_str());
                string_push_str(&mut text, "; use wheel or logo");
                text
            },
            LightingProgramError::TriggersUnsupported => {
                "triggered-fade currently requires the Windows system mouse-event adapter".to_owned()
            },
        }
    }
}

impl KeyboardUsageParseError {
    /// `unknown keyboard key` and the name as `{:?}` shows it.
    pub fn to_string(&self) -> (text: String)
        ensures
            text@ == "unknown keyboard key "@ + debug_text(self.0@),
    {
        let mut text = "unknown keyboard key ".to_owned();
        string_push_str(&mut text, debug_quoted(self.0.as_str()).as_str());
        text
    }
}

} // verus!

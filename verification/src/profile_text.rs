//! Text of the Pulsefire Raid profile: the error messages of the profile
//! codec and the lines that describe a runtime profile's polling rate, DPI
//! stages and button mappings.
use vstd::prelude::*;
use crate::button::{ButtonBinding, MacroPlayback, MouseFunction, MultimediaFunction, WindowsShortcut};
use crate::cli::{binding_text, format_button_binding, playback_debug_text};
use crate::ngenuity_diff::{debug_quoted, debug_text};
use crate::capability::polling_hz;
use crate::color::color_text;
use crate::ngenuity_diff::texts;
use crate::performance::{DpiProfile, DpiStage};
use crate::pulsefire_raid::{
    button_binding_spec, control_name, dpi_profile_spec, macro_reference_record, polling_rate_spec,
    DpiAxis, PerformanceProfile, PerformanceProfileError, PulsefireRaidControl,
};
use crate::text::{
    byte_hex_upper, decimal_chars, push_byte_hex_upper, push_decimal, push_u16_hex_upper,
    string_push_str, u16_hex_upper,
};

verus! {

/// `{:?}` of a mouse function: its variant name.
pub open spec fn mouse_function_debug(f: MouseFunction) -> Seq<char> {
    match f {
        MouseFunction::LeftClick => "LeftClick"@,
        MouseFunction::RightClick => "RightClick"@,
        MouseFunction::MiddleClick => "MiddleClick"@,
        MouseFunction::Back => "Back"@,
        MouseFunction::Forward => "Forward"@,
        MouseFunction::TiltLeft => "TiltLeft"@,
        MouseFunction::TiltRight => "TiltRight"@,
        MouseFunction::DpiToggle => "DpiToggle"@,
        MouseFunction::ScrollUp => "ScrollUp"@,
        MouseFunction::ScrollDown => "ScrollDown"@,
    }
}

/// `{:?}` of a multimedia function: its variant name.
pub open spec fn multimedia_function_debug(f: MultimediaFunction) -> Seq<char> {
    match f {
        MultimediaFunction::PlayPause => "PlayPause"@,
        MultimediaFunction::Stop => "Stop"@,
        MultimediaFunction::NextTrack => "NextTrack"@,
        MultimediaFunction::PreviousTrack => "PreviousTrack"@,
        MultimediaFunction::MuteVolume => "MuteVolume"@,
        MultimediaFunction::VolumeUp => "VolumeUp"@,
        MultimediaFunction::VolumeDown => "VolumeDown"@,
    }
}

/// `{:?}` of a Windows shortcut: its variant name.
pub open spec fn windows_shortcut_debug(s: WindowsShortcut) -> Seq<char> {
    match s {
        WindowsShortcut::CycleApps => "CycleApps"@,
        WindowsShortcut::SwitchApps => "SwitchApps"@,
        WindowsShortcut::Cut => "Cut"@,
        WindowsShortcut::Copy => "Copy"@,
        WindowsShortcut::Paste => "Paste"@,
        WindowsShortcut::Undo => "Undo"@,
    }
}

/// `{:?}` of a control: its variant name.
pub open spec fn control_debug(c: PulsefireRaidControl) -> Seq<char> {
    match c {
        PulsefireRaidControl::LeftClick => "LeftClick"@,
        PulsefireRaidControl::RightClick => "RightClick"@,
        PulsefireRaidControl::MiddleClick => "MiddleClick"@,
        PulsefireRaidControl::Button4 => "Button4"@,
        PulsefireRaidControl::Button5 => "Button5"@,
        PulsefireRaidControl::Button7 => "Button7"@,
        PulsefireRaidControl::Button6 => "Button6"@,
        PulsefireRaidControl::Button8 => "Button8"@,
        PulsefireRaidControl::Dpi => "Dpi"@,
        PulsefireRaidControl::WheelTiltLeft => "WheelTiltLeft"@,
        PulsefireRaidControl::WheelTiltRight => "WheelTiltRight"@,
    }
}

/// `{:?}` of a binding, as the derived `Debug` prints it.
pub open spec fn binding_debug(b: ButtonBinding) -> Seq<char> {
    match b {
        ButtonBinding::Mouse(f) => "Mouse("@ + mouse_function_debug(f) + ")"@,
        ButtonBinding::Keyboard(u) => "Keyboard(KeyboardUsage("@ + decimal_chars(u.0 as nat) + "))"@,
        ButtonBinding::Multimedia(f) => "Multimedia("@ + multimedia_function_debug(f) + ")"@,
        ButtonBinding::Macro(m) => "Macro(MacroBinding { id: "@ + debug_text(m.id@) + ", playback: "@
            + playback_debug_text(m.playback) + " })"@,
        ButtonBinding::WindowsShortcut(s) => "WindowsShortcut("@ + windows_shortcut_debug(s) + ")"@,
        ButtonBinding::Disabled => "Disabled"@,
    }
}

/// `{:02X?}` of a four-byte record.
pub open spec fn record_debug(r: [u8; 4]) -> Seq<char> {
    "["@ + byte_hex_upper(r[0]) + ", "@ + byte_hex_upper(r[1]) + ", "@ + byte_hex_upper(r[2]) + ", "@
        + byte_hex_upper(r[3]) + "]"@
}

pub open spec fn axis_debug(a: DpiAxis) -> Seq<char> {
    match a {
        DpiAxis::X => "X"@,
        DpiAxis::Y => "Y"@,
    }
}

/// The message of a profile codec error.
pub open spec fn profile_error_text(e: PerformanceProfileError) -> Seq<char> {
    match e {
        PerformanceProfileError::WrongLength(n) => "expected a 264-byte Pulsefire Raid profile report, got "@
            + decimal_chars(n as nat) + " bytes"@,
        PerformanceProfileError::WrongReportId(b) => "expected report ID 0x07, got 0x"@ + byte_hex_upper(b),
        PerformanceProfileError::UnsupportedOpcode(b) => "unsupported Pulsefire Raid profile opcode 0x"@
            + byte_hex_upper(b),
        PerformanceProfileError::UnsupportedSection(b) => "unsupported Pulsefire Raid profile section 0x"@
            + byte_hex_upper(b),
        PerformanceProfileError::UnknownPollingInterval(b) => "unknown Pulsefire Raid polling interval code 0x"@
            + byte_hex_upper(b),
        PerformanceProfileError::InvalidDpiStageFlag { stage, value } => "invalid enabled flag 0x"@
            + byte_hex_upper(value) + " for DPI stage "@ + decimal_chars(stage as nat),
        PerformanceProfileError::NonContiguousDpiStages { stage } => "enabled DPI stage "@ + decimal_chars(
            stage as nat,
        ) + " follows a disabled stage"@,
        PerformanceProfileError::NoEnabledDpiStages => "Pulsefire Raid profile does not contain an enabled DPI stage"@,
        PerformanceProfileError::InvalidActiveDpiStage { active, stage_count } => "active DPI stage "@
            + decimal_chars(active as nat) + " is outside the "@ + decimal_chars(stage_count as nat)
            + " enabled stages"@,
        PerformanceProfileError::InvalidDpiStageCount(n) => "Pulsefire Raid requires between 1 and 5 DPI stages, got "@
            + decimal_chars(n as nat),
        PerformanceProfileError::DpiOutOfRange { stage, axis, dpi } => "DPI stage "@ + decimal_chars(
            stage as nat,
        ) + " "@ + axis_debug(axis) + " value "@ + decimal_chars(dpi as nat)
            + " must be between 200 and 16000"@,
        PerformanceProfileError::DpiNotStepAligned { stage, axis, dpi } => "DPI stage "@ + decimal_chars(
            stage as nat,
        ) + " "@ + axis_debug(axis) + " value "@ + decimal_chars(dpi as nat) + " must be a multiple of 50"@,
        PerformanceProfileError::UnknownButtonBinding { control, record } => "unknown Pulsefire Raid binding record "@
            + record_debug(record) + " for "@ + control_debug(control),
        PerformanceProfileError::KeyboardUsageOutOfRange(u) => "keyboard usage 0x"@ + u16_hex_upper(u)
            + " is outside the captured one-byte binding range 0x01..=0xFF"@,
        PerformanceProfileError::ButtonBindingNotAllowed { control, binding } => "binding "@ + binding_debug(
            binding,
        ) + " is not legal for Pulsefire Raid control "@ + control_debug(control),
        PerformanceProfileError::UnconfirmedButtonBinding(b) => "binding "@ + binding_debug(b)
            + " does not yet have a capture-backed Pulsefire Raid encoding"@,
        PerformanceProfileError::UnconfirmedOnboardMacroControl(c) => "onboard macros are not capture-backed for "@
            + control_debug(c) + "; only Button 5 is supported"@,
    }
}

fn mouse_function_debug_str(f: MouseFunction) -> (text: &'static str)
    ensures
        text@ == mouse_function_debug(f),
{
    match f {
        MouseFunction::LeftClick => "LeftClick",
        MouseFunction::RightClick => "RightClick",
        MouseFunction::MiddleClick => "MiddleClick",
        MouseFunction::Back => "Back",
        MouseFunction::Forward => "Forward",
        MouseFunction::TiltLeft => "TiltLeft",
        MouseFunction::TiltRight => "TiltRight",
        MouseFunction::DpiToggle => "DpiToggle",
        MouseFunction::ScrollUp => "ScrollUp",
        MouseFunction::ScrollDown => "ScrollDown",
    }
}

fn multimedia_function_debug_str(f: MultimediaFunction) -> (text: &'static str)
    ensures
        text@ == multimedia_function_debug(f),
{
    match f {
        MultimediaFunction::PlayPause => "PlayPause",
        MultimediaFunction::Stop => "Stop",
        MultimediaFunction::NextTrack => "NextTrack",
        MultimediaFunction::PreviousTrack => "PreviousTrack",
        MultimediaFunction::MuteVolume => "MuteVolume",
        MultimediaFunction::VolumeUp => "VolumeUp",
        MultimediaFunction::VolumeDown => "VolumeDown",
    }
}

fn windows_shortcut_debug_str(s: WindowsShortcut) -> (text: &'static str)
    ensures
        text@ == windows_shortcut_debug(s),
{
    match s {
        WindowsShortcut::CycleApps => "CycleApps",
        WindowsShortcut::SwitchApps => "SwitchApps",
        WindowsShortcut::Cut => "Cut",
        WindowsShortcut::Copy => "Copy",
        WindowsShortcut::Paste => "Paste",
        WindowsShortcut::Undo => "Undo",
    }
}

pub(crate) fn control_debug_str(c: PulsefireRaidControl) -> (text: &'static str)
    ensures
        text@ == control_debug(c),
{
    match c {
        PulsefireRaidControl::LeftClick => "LeftClick",
        PulsefireRaidControl::RightClick => "RightClick",
        PulsefireRaidControl::MiddleClick => "MiddleClick",
        PulsefireRaidControl::Button4 => "Button4",
        PulsefireRaidControl::Button5 => "Button5",
        PulsefireRaidControl::Button7 => "Button7",
        PulsefireRaidControl::Button6 => "Button6",
        PulsefireRaidControl::Button8 => "Button8",
        PulsefireRaidControl::Dpi => "Dpi",
        PulsefireRaidControl::WheelTiltLeft => "WheelTiltLeft",
        PulsefireRaidControl::WheelTiltRight => "WheelTiltRight",
    }
}

/// Append `{:?}` of a binding.
pub(crate) fn push_binding_debug(text: &mut String, b: &ButtonBinding)
    ensures
        final(text)@ == old(text)@ + binding_debug(*b),
{
    let mut part = String::new();
    match b {
        ButtonBinding::Mouse(f) => {
            part = "Mouse(".to_owned();
            string_push_str(&mut part, mouse_function_debug_str(*f));
            string_push_str(&mut part, ")");
        },
        ButtonBinding::Keyboard(u) => {
            part = "Keyboard(KeyboardUsage(".to_owned();
            push_decimal(&mut part, u.0 as u64);
            string_push_str(&mut part, "))");
        },
        ButtonBinding::Multimedia(f) => {
            part = "Multimedia(".to_owned();
            string_push_str(&mut part, multimedia_function_debug_str(*f));
            string_push_str(&mut part, ")");
        },
        ButtonBinding::Macro(m) => {
            part = "Macro(MacroBinding { id: ".to_owned();
            let id = debug_quoted(m.id.as_str());
            string_push_str(&mut part, id.as_str());
            string_push_str(&mut part, ", playback: ");
            match m.playback {
                MacroPlayback::Once => string_push_str(&mut part, "Once"),
                MacroPlayback::ToggleRepeat => string_push_str(&mut part, "ToggleRepeat"),
                MacroPlayback::RepeatWhileHeld => string_push_str(&mut part, "RepeatWhileHeld"),
            }
            string_push_str(&mut part, " })");
        },
        ButtonBinding::WindowsShortcut(s) => {
            part = "WindowsShortcut(".to_owned();
            string_push_str(&mut part, windows_shortcut_debug_str(*s));
            string_push_str(&mut part, ")");
        },
        ButtonBinding::Disabled => {
            part = "Disabled".to_owned();
        },
    }
    string_push_str(text, part.as_str());
}

impl PerformanceProfileError {
    /// The error's message.
    pub fn to_string(&self) -> (text: String)
        ensures
            text@ == profile_error_text(*self),
    {
        match self {
            PerformanceProfileError::WrongLength(n) => {
                let mut t = "expected a 264-byte Pulsefire Raid profile report, got ".to_owned();
                push_decimal(&mut t, *n as u64);
                string_push_str(&mut t, " bytes");
                t
            },
            PerformanceProfileError::WrongReportId(b) => {
                let mut t = "expected report ID 0x07, got 0x".to_owned();
                push_byte_hex_upper(&mut t, *b);
                t
            },
            PerformanceProfileError::UnsupportedOpcode(b) => {
                let mut t = "unsupported Pulsefire Raid profile opcode 0x".to_owned();
                push_byte_hex_upper(&mut t, *b);
                t
            },
            PerformanceProfileError::UnsupportedSection(b) => {
                let mut t = "unsupported Pulsefire Raid profile section 0x".to_owned();
                push_byte_hex_upper(&mut t, *b);
                t
            },
            PerformanceProfileError::UnknownPollingInterval(b) => {
                let mut t = "unknown Pulsefire Raid polling interval code 0x".to_owned();
                push_byte_hex_upper(&mut t, *b);
                t
            },
            PerformanceProfileError::InvalidDpiStageFlag { stage, value } => {
                let mut t = "invalid enabled flag 0x".to_owned();
                push_byte_hex_upper(&mut t, *value);
                string_push_str(&mut t, " for DPI stage ");
                push_decimal(&mut t, *stage as u64);
                t
            },
            PerformanceProfileError::NonContiguousDpiStages { stage } => {
                let mut t = "enabled DPI stage ".to_owned();
                push_decimal(&mut t, *stage as u64);
                string_push_str(&mut t, " follows a disabled stage");
                t
            },
            PerformanceProfileError::NoEnabledDpiStages => {
                "Pulsefire Raid profile does not contain an enabled DPI stage".to_owned()
            },
            PerformanceProfileError::InvalidActiveDpiStage { active, stage_count } => {
                let mut t = "active DPI stage ".to_owned();
                push_decimal(&mut t, *active as u64);
                string_push_str(&mut t, " is outside the ");
                push_decimal(&mut t, *stage_count as u64);
                string_push_str(&mut t, " enabled stages");
                t
            },
            PerformanceProfileError::InvalidDpiStageCount(n) => {
                let mut t = "Pulsefire Raid requires between 1 and 5 DPI stages, got ".to_owned();
                push_decimal(&mut t, *n as u64);
                t
            },
            PerformanceProfileError::DpiOutOfRange { stage, axis, dpi } => {
                let mut t = "DPI stage ".to_owned();
                push_decimal(&mut t, *stage as u64);
                string_push_str(&mut t, " ");
                string_push_str(&mut t, match axis { DpiAxis::X => "X", DpiAxis::Y => "Y" });
                string_push_str(&mut t, " value ");
                push_decimal(&mut t, *dpi as u64);
                string_push_str(&mut t, " must be between 200 and 16000");
                t
            },
            PerformanceProfileError::DpiNotStepAligned { stage, axis, dpi } => {
                let mut t = "DPI stage ".to_owned();
                push_decimal(&mut t, *stage as u64);
                string_push_str(&mut t, " ");
                string_push_str(&mut t, match axis { DpiAxis::X => "X", DpiAxis::Y => "Y" });
                string_push_str(&mut t, " value ");
                push_decimal(&mut t, *dpi as u64);
                string_push_str(&mut t, " must be a multiple of 50");
                t
            },
            PerformanceProfileError::UnknownButtonBinding { control, record } => {
                let mut r = "[".to_owned();
                push_byte_hex_upper(&mut r, record[0]);
                string_push_str(&mut r, ", ");
                push_byte_hex_upper(&mut r, record[1]);
                string_push_str(&mut r, ", ");
                push_byte_hex_upper(&mut r, record[2]);
                string_push_str(&mut r, ", ");
                push_byte_hex_upper(&mut r, record[3]);
                string_push_str(&mut r, "]");
                let mut t = "unknown Pulsefire Raid binding record ".to_owned();
                string_push_str(&mut t, r.as_str());
                string_push_str(&mut t, " for ");
                string_push_str(&mut t, control_debug_str(*control));
                t
            },
            PerformanceProfileError::KeyboardUsageOutOfRange(u) => {
                let mut t = "keyboard usage 0x".to_owned();
                push_u16_hex_upper(&mut t, *u);
                string_push_str(&mut t, " is outside the captured one-byte binding range 0x01..=0xFF");
                t
            },
            PerformanceProfileError::ButtonBindingNotAllowed { control, binding } => {
                let mut t = "binding ".to_owned();
                push_binding_debug(&mut t, binding);
                string_push_str(&mut t, " is not legal for Pulsefire Raid control ");
                string_push_str(&mut t, control_debug_str(*control));
                t
            },
            PerformanceProfileError::UnconfirmedButtonBinding(b) => {
                let mut t = "binding ".to_owned();
                push_binding_debug(&mut t, b);
                string_push_str(&mut t, " does not yet have a capture-backed Pulsefire Raid encoding");
                t
            },
            PerformanceProfileError::UnconfirmedOnboardMacroControl(c) => {
                let mut t = "onboard macros are not capture-backed for ".to_owned();
                string_push_str(&mut t, control_debug_str(*c));
                string_push_str(&mut t, "; only Button 5 is supported");
                t
            },
        }
    }
}

/// `text` padded with spaces on the right to `width` characters (`{:<width}`).
pub open spec fn pad_right(text: Seq<char>, width: nat) -> Seq<char> {
    if text.len() >= width {
        text
    } else {
        text + Seq::new((width - text.len()) as nat, |i: int| ' ')
    }
}

fn push_padded(line: &mut String, text: &str, width: usize)
    ensures
        final(line)@ == old(line)@ + pad_right(text@, width as nat),
{
    string_push_str(line, text);
    let ghost start = old(line)@;
    let n = text.unicode_len();
    let mut k: usize = n;
    while k < width
        invariant
            n == text@.len(),
            n <= k <= width || (k == n && n >= width),
            line@ == start + text@ + Seq::new((k - n) as nat, |i: int| ' '),
        decreases width - k,
    {
        crate::text::string_push(line, ' ');
        assert(Seq::new((k + 1 - n) as nat, |i: int| ' ') =~= Seq::new((k - n) as nat, |i: int| ' ').push(' '));
        k += 1;
    }
    if n >= width {
        assert(line@ =~= start + text@);
    } else {
        assert(k == width);
    }
}

/// One DPI stage line: active marker, one-based number, resolution and
/// color.
pub open spec fn dpi_stage_text(stages: Seq<DpiStage>, active: usize, index: int) -> Seq<char> {
    let s = stages[index];
    "    "@ + (if index == active { "*"@ } else { " "@ }) + " "@ + decimal_chars((index + 1) as nat)
        + ": "@ + (if s.x == s.y {
        decimal_chars(s.x as nat) + " DPI"@
    } else {
        decimal_chars(s.x as nat) + "x"@ + decimal_chars(s.y as nat) + " DPI"@
    }) + ", color "@ + color_text(s.color)
}

pub open spec fn dpi_profile_text(stages: Seq<DpiStage>, active: usize) -> Seq<Seq<char>> {
    Seq::new(stages.len(), |i: int| dpi_stage_text(stages, active, i))
}

/// The lines listing the stages of a DPI profile.
pub fn dpi_profile_lines(profile: &DpiProfile) -> (lines: Vec<String>)
    ensures
        texts(lines@) == dpi_profile_text(profile.stages@, profile.active_stage),
{
    let mut lines: Vec<String> = Vec::new();
    let mut index: usize = 0;
    while index < profile.stages.len()
        invariant
            index <= profile.stages@.len(),
            texts(lines@) == Seq::new(index as nat, |i: int| dpi_stage_text(profile.stages@, profile.active_stage, i)),
        decreases profile.stages.len() - index,
    {
        let stage = &profile.stages[index];
        let mut line = "    ".to_owned();
        string_push_str(&mut line, if index == profile.active_stage { "*" } else { " " });
        string_push_str(&mut line, " ");
        push_decimal(&mut line, (index + 1) as u64);
        string_push_str(&mut line, ": ");
        let resolution = if stage.x == stage.y {
            let mut r = crate::text::decimal_string(stage.x as u64);
            string_push_str(&mut r, " DPI");
            r
        } else {
            let mut r = crate::text::decimal_string(stage.x as u64);
            string_push_str(&mut r, "x");
            push_decimal(&mut r, stage.y as u64);
            string_push_str(&mut r, " DPI");
            r
        };
        string_push_str(&mut line, resolution.as_str());
        string_push_str(&mut line, ", color ");
        let color = stage.color.to_string();
        string_push_str(&mut line, color.as_str());
        assert(resolution@ == (if stage.x == stage.y {
            decimal_chars(stage.x as nat) + " DPI"@
        } else {
            decimal_chars(stage.x as nat) + "x"@ + decimal_chars(stage.y as nat) + " DPI"@
        }));
        assert(line@ == dpi_stage_text(profile.stages@, profile.active_stage, index as int));
        let ghost before = texts(lines@);
        lines.push(line);
        assert(texts(lines@) =~= before.push(line@));
        assert(texts(lines@) =~= Seq::new((index + 1) as nat, |i: int| dpi_stage_text(profile.stages@, profile.active_stage, i)));
        index += 1;
    }
    lines
}

/// Whether the image holds the captured macro reference for a control.
pub open spec fn holds_macro_reference(image: Seq<u8>, control: PulsefireRaidControl) -> bool {
    control == PulsefireRaidControl::Button5 && image.subrange(0x8C, 0x90) == macro_reference_record(4)
}

/// One button line: the padded control name, then the binding, the macro
/// reference or the decode error.
pub open spec fn button_line(image: Seq<u8>, indent: Seq<char>, control: PulsefireRaidControl) -> Seq<char> {
    let label = pad_right(control_name(control) + ":"@, 17);
    if holds_macro_reference(image, control) {
        indent + label + " Macro reference (definition is not present in the runtime profile)"@
    } else {
        match button_binding_spec(image, control) {
            Ok(b) => indent + label + " "@ + binding_text(b),
            Err(e) => indent + label + " <decode error: "@ + profile_error_text(e) + ">"@,
        }
    }
}

pub open spec fn all_controls() -> Seq<PulsefireRaidControl> {
    seq![
        PulsefireRaidControl::LeftClick,
        PulsefireRaidControl::RightClick,
        PulsefireRaidControl::MiddleClick,
        PulsefireRaidControl::Button4,
        PulsefireRaidControl::Button5,
        PulsefireRaidControl::Button7,
        PulsefireRaidControl::Button6,
        PulsefireRaidControl::Button8,
        PulsefireRaidControl::Dpi,
        PulsefireRaidControl::WheelTiltLeft,
        PulsefireRaidControl::WheelTiltRight,
    ]
}

pub open spec fn button_profile_text(image: Seq<u8>, indent: Seq<char>) -> Seq<Seq<char>> {
    Seq::new(11, |i: int| button_line(image, indent, all_controls()[i]))
}

/// The lines listing every control's mapping, in profile order.
pub fn button_profile_lines(profile: &PerformanceProfile, indent: &str) -> (lines: Vec<String>)
    ensures
        texts(lines@) == button_profile_text(profile@, indent@),
{
    let controls = PulsefireRaidControl::all();
    let mut lines: Vec<String> = Vec::new();
    let mut index: usize = 0;
    while index < 11
        invariant
            index <= 11,
            controls@ == all_controls(),
            texts(lines@) == Seq::new(index as nat, |i: int| button_line(profile@, indent@, all_controls()[i])),
        decreases 11 - index,
    {
        let control = controls[index];
        let mut label = control.name();
        string_push_str(&mut label, ":");
        let mut line = indent.to_owned();
        push_padded(&mut line, label.as_str(), 17);
        if profile.has_confirmed_macro_reference(control) {
            string_push_str(&mut line, " Macro reference (definition is not present in the runtime profile)");
        } else {
            match profile.button_binding(control) {
                Ok(binding) => {
                    string_push_str(&mut line, " ");
                    let b = format_button_binding(&binding);
                    string_push_str(&mut line, b.as_str());
                },
                Err(e) => {
                    string_push_str(&mut line, " <decode error: ");
                    let t = e.to_string();
                    string_push_str(&mut line, t.as_str());
                    string_push_str(&mut line, ">");
                },
            }
        }
        assert(line@ == button_line(profile@, indent@, all_controls()[index as int]));
        let ghost before = texts(lines@);
        lines.push(line);
        assert(texts(lines@) =~= before.push(line@));
        assert(texts(lines@) =~= Seq::new((index + 1) as nat, |i: int| button_line(profile@, indent@, all_controls()[i])));
        index += 1;
    }
    lines
}

/// The description of a runtime profile: polling rate, DPI stages and
/// button mappings, each with its decode error in place of a value that
/// could not be decoded.
pub open spec fn runtime_profile_text(image: Seq<u8>) -> Seq<Seq<char>> {
    let polling = match polling_rate_spec(image) {
        Ok(r) => "  Polling rate: "@ + decimal_chars(polling_hz(r) as nat) + " Hz"@,
        Err(e) => "  Polling rate: <decode error: "@ + profile_error_text(e) + ">"@,
    };
    let dpi = match dpi_profile_spec(image) {
        Ok((stages, active)) => dpi_profile_text(stages, active),
        Err(e) => seq!["    <decode error: "@ + profile_error_text(e) + ">"@],
    };
    seq!["Runtime profile:"@, polling, "  DPI stages:"@] + dpi + seq!["  Buttons:"@] + button_profile_text(
        image,
        "    "@,
    )
}

fn push_text(lines: &mut Vec<String>, text: &str)
    ensures
        texts(final(lines)@) == texts(old(lines)@).push(text@),
{
    let ghost before = lines@;
    lines.push(text.to_owned());
    assert(texts(lines@) =~= texts(before).push(text@));
}

fn append_lines(lines: &mut Vec<String>, more: Vec<String>)
    ensures
        texts(final(lines)@) == texts(old(lines)@) + texts(more@),
{
    let ghost before = texts(lines@);
    let mut more = more;
    let mut k: usize = 0;
    let ghost all = more@;
    while k < more.len()
        invariant
            k <= more@.len(),
            more@ == all,
            texts(lines@) == before + texts(all).take(k as int),
        decreases more.len() - k,
    {
        let line = more[k].clone();
        let ghost prev = lines@;
        lines.push(line);
        assert(texts(all).take(k + 1) =~= texts(all).take(k as int).push(all[k as int]@));
        assert(texts(lines@) =~= texts(prev).push(all[k as int]@));
        k += 1;
    }
    assert(texts(all).take(k as int) =~= texts(all));
}

/// The lines describing a runtime profile.
pub fn runtime_profile_lines(profile: &PerformanceProfile) -> (lines: Vec<String>)
    ensures
        texts(lines@) == runtime_profile_text(profile@),
{
    let ghost image = profile@;
    let ghost polling_spec = match polling_rate_spec(image) {
        Ok(r) => "  Polling rate: "@ + decimal_chars(polling_hz(r) as nat) + " Hz"@,
        Err(e) => "  Polling rate: <decode error: "@ + profile_error_text(e) + ">"@,
    };
    let ghost dpi_spec = match dpi_profile_spec(image) {
        Ok((stages, active)) => dpi_profile_text(stages, active),
        Err(e) => seq!["    <decode error: "@ + profile_error_text(e) + ">"@],
    };
    let polling = match profile.polling_rate() {
        Ok(rate) => {
            let mut line = "  Polling rate: ".to_owned();
            push_decimal(&mut line, rate.hz() as u64);
            string_push_str(&mut line, " Hz");
            line
        },
        Err(e) => {
            let mut line = "  Polling rate: <decode error: ".to_owned();
            let t = e.to_string();
            string_push_str(&mut line, t.as_str());
            string_push_str(&mut line, ">");
            line
        },
    };
    assert(polling@ == polling_spec);
    let mut lines: Vec<String> = Vec::new();
    push_text(&mut lines, "Runtime profile:");
    let ghost l1 = lines@;
    lines.push(polling);
    assert(texts(lines@) =~= texts(l1).push(polling_spec));
    push_text(&mut lines, "  DPI stages:");
    let ghost head = texts(lines@);
    assert(head =~= seq!["Runtime profile:"@, polling_spec, "  DPI stages:"@]);
    match profile.dpi_profile() {
        Ok(dpi) => {
            let more = dpi_profile_lines(&dpi);
            append_lines(&mut lines, more);
        },
        Err(e) => {
            let mut line = "    <decode error: ".to_owned();
            let t = e.to_string();
            string_push_str(&mut line, t.as_str());
            string_push_str(&mut line, ">");
            let ghost prev = lines@;
            lines.push(line);
            assert(texts(lines@) =~= texts(prev) + seq![line@]);
        },
    }
    assert(texts(lines@) == head + dpi_spec);
    push_text(&mut lines, "  Buttons:");
    let ghost mid = texts(lines@);
    assert(mid =~= head + dpi_spec + seq!["  Buttons:"@]);
    let buttons = button_profile_lines(profile, "    ");
    append_lines(&mut lines, buttons);
    assert(texts(lines@) =~= runtime_profile_text(profile@));
    lines
}

} // verus!

//! Argument values and messages of the command-line tool: the checks made
//! before any device is opened, and the text shown for decoded settings.
use vstd::prelude::*;
use vstd::string::StringSliceAdditionalSpecFns;
use crate::button::{ButtonBinding, KeyboardUsage, MacroPlayback, MouseFunction, MultimediaFunction, WindowsShortcut};
use crate::capability::{dpi_error_text, validate_dpi_spec, DpiCapabilities};
use crate::color::{parse_rgb_spec, ColorParseError, RgbColor};
use crate::device::HidInterfaceInfo;
use crate::driver::{PulsefireRaidError, PulsefireRaidRuntimeAssignment, is_general_control, is_portable_binding};
use crate::lighting::{effect_error, program_base_error, zones_in_name_order, SoftwareLightingError, SoftwareLightingProgram};
use crate::pulsefire_raid::PulsefireRaidControl;
use crate::registry::pulsefire_raid_dpi;
use crate::text::{
    ascii_lower, ascii_lower_char, byte_hex_upper, chars_eq_str, decimal_chars, parse_unsigned,
    parse_unsigned_range, push_byte_hex_upper, push_decimal, push_u16_hex_upper, str_chars,
    string_push_str, u16_hex_upper,
};
use crate::wire::Direction;

verus! {

/// The value of a whole decimal argument, as `str::parse` reads it.
fn parse_whole(input: &str, max: u64) -> (value: Option<u64>)
    ensures
        match parse_unsigned(input@, max as int) {
            Some(v) => value == Some(v as u64),
            None => value is None,
        },
{
    let chars = str_chars(input);
    assert(chars@.subrange(0, chars@.len() as int) =~= chars@);
    parse_unsigned_range(&chars, 0, chars.len(), max)
}

fn message_with_text(prefix: &str, input: &str) -> (text: String)
    ensures
        text@ == prefix@ + input@,
{
    let mut text = String::new();
    string_push_str(&mut text, prefix);
    string_push_str(&mut text, input);
    text
}

fn message_with_number(prefix: &str, n: u64) -> (text: String)
    ensures
        text@ == prefix@ + decimal_chars(n as nat),
{
    let mut text = String::new();
    string_push_str(&mut text, prefix);
    push_decimal(&mut text, n);
    text
}

fn message(text: &str) -> (out: String)
    ensures
        out@ == text@,
{
    let mut out = String::new();
    string_push_str(&mut out, text);
    out
}

/// A DPI argument: an integer in the sensor's range and step.
pub fn parse_dpi(input: &str) -> (res: Result<u32, String>)
    ensures
        match parse_unsigned(input@, u32::MAX as int) {
            None => res matches Err(m) && m@ == "DPI must be an integer; got "@ + input@,
            Some(v) => match validate_dpi_spec(
                DpiCapabilities { minimum: 200, maximum: 16000, step: 50, max_stages: 5 },
                v as u32,
            ) {
                Ok(d) => res == Ok::<u32, String>(d),
                Err(e) => res matches Err(m) && m@ == dpi_error_text(e),
            },
        },
{
    let dpi = match parse_whole(input, 0xFFFF_FFFF) {
        Some(v) => v as u32,
        None => return Err(message_with_text("DPI must be an integer; got ", input)),
    };
    match pulsefire_raid_dpi().validate(dpi) {
        Ok(d) => Ok(d),
        Err(e) => Err(e.to_string()),
    }
}

/// Whether the text is `off` in any ASCII case.
pub open spec fn is_off(text: Seq<char>) -> bool {
    text.len() == 3 && ascii_lower(text[0]) == 'o' && ascii_lower(text[1]) == 'f' && ascii_lower(
        text[2],
    ) == 'f'
}

pub open spec fn color_error_text(e: ColorParseError) -> Seq<char> {
    match e {
        ColorParseError::InvalidLength => "RGB color must contain exactly six hexadecimal digits, for example FF8000"@,
        ColorParseError::InvalidHex => "RGB color contains a non-hexadecimal digit"@,
    }
}

/// A color argument, or `off` for black.
pub fn parse_rgb_or_off(input: &str) -> (res: Result<RgbColor, String>)
    ensures
        is_off(input@) ==> res == Ok::<RgbColor, String>(RgbColor { red: 0, green: 0, blue: 0 }),
        !is_off(input@) ==> match parse_rgb_spec(input.spec_bytes()) {
            Ok(c) => res == Ok::<RgbColor, String>(c),
            Err(e) => res matches Err(m) && m@ == color_error_text(e),
        },
{
    let chars = str_chars(input);
    if chars.len() == 3 && ascii_lower_char(chars[0]) == 'o' && ascii_lower_char(chars[1]) == 'f'
        && ascii_lower_char(chars[2]) == 'f' {
        return Ok(RgbColor::black());
    }
    match RgbColor::parse(input) {
        Ok(c) => Ok(c),
        Err(e) => Err(e.to_string()),
    }
}

/// A foreground effect duration: 1 to 3600 seconds.
pub fn parse_effect_duration(input: &str) -> (res: Result<u64, String>)
    ensures
        match parse_unsigned(input@, u64::MAX as int) {
            None => res matches Err(m) && m@ == "effect duration must be an integer; got "@ + input@,
            Some(v) => if 1 <= v <= 3600 {
                res == Ok::<u64, String>(v as u64)
            } else {
                res matches Err(m) && m@ == "effect duration must be between 1 and 3600 seconds; got "@
                    + decimal_chars(v)
            },
        },
{
    let seconds = match parse_whole(input, 0xFFFF_FFFF_FFFF_FFFF) {
        Some(v) => v,
        None => return Err(message_with_text("effect duration must be an integer; got ", input)),
    };
    if 1 <= seconds && seconds <= 3600 {
        Ok(seconds)
    } else {
        Err(message_with_number("effect duration must be between 1 and 3600 seconds; got ", seconds))
    }
}

/// A spectrum cycle period: 1 to 60 seconds.
pub fn parse_cycle_period(input: &str) -> (res: Result<u64, String>)
    ensures
        match parse_unsigned(input@, u64::MAX as int) {
            None => res matches Err(m) && m@ == "cycle period must be an integer; got "@ + input@,
            Some(v) => if 1 <= v <= 60 {
                res == Ok::<u64, String>(v as u64)
            } else {
                res matches Err(m) && m@ == "cycle period must be between 1 and 60 seconds; got "@
                    + decimal_chars(v)
            },
        },
{
    let seconds = match parse_whole(input, 0xFFFF_FFFF_FFFF_FFFF) {
        Some(v) => v,
        None => return Err(message_with_text("cycle period must be an integer; got ", input)),
    };
    if 1 <= seconds && seconds <= 60 {
        Ok(seconds)
    } else {
        Err(message_with_number("cycle period must be between 1 and 60 seconds; got ", seconds))
    }
}

/// A phase: 0 through 359 degrees.
pub fn parse_phase_degrees(input: &str) -> (res: Result<u16, String>)
    ensures
        match parse_unsigned(input@, u16::MAX as int) {
            None => res matches Err(m) && m@ == "phase must be an integer; got "@ + input@,
            Some(v) => if v < 360 {
                res == Ok::<u16, String>(v as u16)
            } else {
                res matches Err(m) && m@ == "phase must be from 0 through 359 degrees; got "@
                    + decimal_chars(v)
            },
        },
{
    let phase = match parse_whole(input, 0xFFFF) {
        Some(v) => v,
        None => return Err(message_with_text("phase must be an integer; got ", input)),
    };
    if phase < 360 {
        Ok(phase as u16)
    } else {
        Err(message_with_number("phase must be from 0 through 359 degrees; got ", phase))
    }
}

/// A one-based DPI stage number: 1 through 5.
pub fn parse_dpi_stage(input: &str) -> (res: Result<usize, String>)
    ensures
        match parse_unsigned(input@, usize::MAX as int) {
            None => res matches Err(m) && m@ == "DPI stage must be an integer; got "@ + input@,
            Some(v) => if 1 <= v <= 5 {
                res == Ok::<usize, String>(v as usize)
            } else {
                res matches Err(m) && m@ == "DPI stage must be between 1 and 5; got "@ + decimal_chars(v)
            },
        },
{
    let stage = match parse_whole(input, usize::MAX as u64) {
        Some(v) => v,
        None => return Err(message_with_text("DPI stage must be an integer; got ", input)),
    };
    if 1 <= stage && stage <= 5 {
        Ok(stage as usize)
    } else {
        Err(message_with_number("DPI stage must be between 1 and 5; got ", stage))
    }
}

/// Longest foreground refresh of a static color, in seconds.
pub const MAX_STATIC_RGB_SECONDS: u64 = 3600;

/// Check the refresh duration of a static color command.
pub fn check_static_rgb_duration(duration_seconds: u64) -> (res: Result<(), String>)
    ensures
        res is Ok <==> duration_seconds <= 3600,
        res matches Err(m) ==> m@ == "--duration cannot exceed 3600 seconds"@,
{
    if duration_seconds > MAX_STATIC_RGB_SECONDS {
        Err(message("--duration cannot exceed 3600 seconds"))
    } else {
        Ok(())
    }
}

/// Wheel and logo colors of a static command: each zone's own color, else
/// the shared color, else black. At least one must be given.
pub fn resolve_static_rgb(color: Option<RgbColor>, wheel: Option<RgbColor>, logo: Option<RgbColor>) -> (res: Result<
    (RgbColor, RgbColor),
    String,
>)
    ensures
        color is None && wheel is None && logo is None ==> (res matches Err(m) && m@
            == "provide COLOR, --wheel COLOR|off, or --logo COLOR|off"@),
        !(color is None && wheel is None && logo is None) ==> {
            let fallback = match color {
                Some(c) => c,
                None => RgbColor { red: 0, green: 0, blue: 0 },
            };
            res == Ok::<(RgbColor, RgbColor), String>(
                (
                    match wheel {
                        Some(w) => w,
                        None => fallback,
                    },
                    match logo {
                        Some(l) => l,
                        None => fallback,
                    },
                ),
            )
        },
{
    if color.is_none() && wheel.is_none() && logo.is_none() {
        return Err(message("provide COLOR, --wheel COLOR|off, or --logo COLOR|off"));
    }
    let fallback = match color {
        Some(c) => c,
        None => RgbColor::black(),
    };
    let w = match wheel {
        Some(w) => w,
        None => fallback,
    };
    let l = match logo {
        Some(l) => l,
        None => fallback,
    };
    Ok((w, l))
}

/// The LEDs an effect is rendered on.
#[derive(Clone, Copy, Debug, PartialEq, Eq, Structural)]
pub enum RgbTargetArg {
    All,
    Wheel,
    Logo,
}

impl RgbTargetArg {
    /// The colors sent: the rendered color on targeted LEDs, black elsewhere.
    pub fn colors(self, wheel: RgbColor, logo: RgbColor) -> (colors: (RgbColor, RgbColor))
        ensures
            colors == match self {
                RgbTargetArg::All => (wheel, logo),
                RgbTargetArg::Wheel => (wheel, RgbColor { red: 0, green: 0, blue: 0 }),
                RgbTargetArg::Logo => (RgbColor { red: 0, green: 0, blue: 0 }, logo),
            },
    {
        match self {
            RgbTargetArg::All => (wheel, logo),
            RgbTargetArg::Wheel => (wheel, RgbColor::black()),
            RgbTargetArg::Logo => (RgbColor::black(), logo),
        }
    }

    pub fn name(self) -> (name: &'static str)
        ensures
            name@ == match self {
                RgbTargetArg::All => "all LEDs"@,
                RgbTargetArg::Wheel => "wheel"@,
                RgbTargetArg::Logo => "logo"@,
            },
    {
        match self {
            RgbTargetArg::All => "all LEDs",
            RgbTargetArg::Wheel => "wheel",
            RgbTargetArg::Logo => "logo",
        }
    }
}

/// The controls the command line can remap.
#[derive(Clone, Copy, Debug, PartialEq, Eq, Structural)]
pub enum ButtonControlArg {
    WheelClick,
    Button4,
    Button5,
    Button7,
    Button6,
    Button8,
    Dpi,
    WheelTiltLeft,
    WheelTiltRight,
}

impl ButtonControlArg {
    pub fn protocol_control(self) -> (control: PulsefireRaidControl)
        ensures
            control == match self {
                ButtonControlArg::WheelClick => PulsefireRaidControl::MiddleClick,
                ButtonControlArg::Button4 => PulsefireRaidControl::Button4,
                ButtonControlArg::Button5 => PulsefireRaidControl::Button5,
                ButtonControlArg::Button7 => PulsefireRaidControl::Button7,
                ButtonControlArg::Button6 => PulsefireRaidControl::Button6,
                ButtonControlArg::Button8 => PulsefireRaidControl::Button8,
                ButtonControlArg::Dpi => PulsefireRaidControl::Dpi,
                ButtonControlArg::WheelTiltLeft => PulsefireRaidControl::WheelTiltLeft,
                ButtonControlArg::WheelTiltRight => PulsefireRaidControl::WheelTiltRight,
            },
    {
        match self {
            ButtonControlArg::WheelClick => PulsefireRaidControl::MiddleClick,
            ButtonControlArg::Button4 => PulsefireRaidControl::Button4,
            ButtonControlArg::Button5 => PulsefireRaidControl::Button5,
            ButtonControlArg::Button7 => PulsefireRaidControl::Button7,
            ButtonControlArg::Button6 => PulsefireRaidControl::Button6,
            ButtonControlArg::Button8 => PulsefireRaidControl::Button8,
            ButtonControlArg::Dpi => PulsefireRaidControl::Dpi,
            ButtonControlArg::WheelTiltLeft => PulsefireRaidControl::WheelTiltLeft,
            ButtonControlArg::WheelTiltRight => PulsefireRaidControl::WheelTiltRight,
        }
    }
}

#[derive(Clone, Copy, Debug, PartialEq, Eq, Structural)]
pub enum ButtonMouseFunctionArg {
    Forward,
    Back,
    DpiToggle,
}

#[derive(Clone, Copy, Debug, PartialEq, Eq, Structural)]
pub enum ButtonMultimediaFunctionArg {
    VolumeUp,
    VolumeDown,
}

#[derive(Clone, Copy, Debug, PartialEq, Eq, Structural)]
pub enum ButtonWindowsShortcutArg {
    Copy,
}

/// An ordinary assignment named on the command line.
#[derive(Clone, Copy, Debug, PartialEq, Eq, Structural)]
pub enum ButtonAssignmentCommand {
    Disabled,
    Mouse { function: ButtonMouseFunctionArg },
    Multimedia { function: ButtonMultimediaFunctionArg },
    WindowsShortcut { shortcut: ButtonWindowsShortcutArg },
    Keyboard { key: KeyboardUsage },
}

/// The binding a command names.
pub open spec fn command_binding(command: ButtonAssignmentCommand) -> ButtonBinding {
    match command {
        ButtonAssignmentCommand::Disabled => ButtonBinding::Disabled,
        ButtonAssignmentCommand::Mouse { function } => ButtonBinding::Mouse(
            match function {
                ButtonMouseFunctionArg::Forward => MouseFunction::Forward,
                ButtonMouseFunctionArg::Back => MouseFunction::Back,
                ButtonMouseFunctionArg::DpiToggle => MouseFunction::DpiToggle,
            },
        ),
        ButtonAssignmentCommand::Multimedia { function } => ButtonBinding::Multimedia(
            match function {
                ButtonMultimediaFunctionArg::VolumeUp => MultimediaFunction::VolumeUp,
                ButtonMultimediaFunctionArg::VolumeDown => MultimediaFunction::VolumeDown,
            },
        ),
        ButtonAssignmentCommand::WindowsShortcut { .. } => ButtonBinding::WindowsShortcut(WindowsShortcut::Copy),
        ButtonAssignmentCommand::Keyboard { key } => ButtonBinding::Keyboard(key),
    }
}

/// The description printed after a successful update.
pub open spec fn command_description(command: ButtonAssignmentCommand) -> Seq<char> {
    match command {
        ButtonAssignmentCommand::Disabled => "disabled"@,
        ButtonAssignmentCommand::Mouse { function } => match function {
            ButtonMouseFunctionArg::Forward => "mouse forward"@,
            ButtonMouseFunctionArg::Back => "mouse back"@,
            ButtonMouseFunctionArg::DpiToggle => "mouse DPI toggle"@,
        },
        ButtonAssignmentCommand::Multimedia { function } => match function {
            ButtonMultimediaFunctionArg::VolumeUp => "multimedia volume-up"@,
            ButtonMultimediaFunctionArg::VolumeDown => "multimedia volume-down"@,
        },
        ButtonAssignmentCommand::WindowsShortcut { .. } => "Windows shortcut copy"@,
        ButtonAssignmentCommand::Keyboard { key } => "keyboard HID usage 0x"@ + byte_hex_upper(key.0 as u8),
    }
}

/// Whether the command line offers `command` for `control`: the Forward
/// and Copy actions only for Button 5, everything else for every control.
pub open spec fn command_offered(command: ButtonAssignmentCommand, control: PulsefireRaidControl) -> bool {
    match command {
        ButtonAssignmentCommand::Mouse { function: ButtonMouseFunctionArg::Forward } => control
            == PulsefireRaidControl::Button5,
        ButtonAssignmentCommand::WindowsShortcut { .. } => control == PulsefireRaidControl::Button5,
        _ => true,
    }
}

impl ButtonAssignmentCommand {
    /// Validate the named binding for `control` and describe it.
    pub fn into_assignment(self, control: PulsefireRaidControl) -> (res: Result<
        (PulsefireRaidRuntimeAssignment, String),
        PulsefireRaidError,
    >)
        ensures
            command_offered(self, control) && is_general_control(control) && is_portable_binding(
                command_binding(self),
            ) ==> (res matches Ok((a, d)) && a.spec_control() == control && a.spec_ordinary() == Some(
                command_binding(self),
            ) && d@ == command_description(self)),
            !(command_offered(self, control) && is_general_control(control) && is_portable_binding(
                command_binding(self),
            )) ==> (res matches Err(
                PulsefireRaidError::UnconfirmedRuntimeButtonBinding { control: c, binding: b },
            ) && c == control && b == command_binding(self)),
    {
        let offered = match self {
            ButtonAssignmentCommand::Mouse { function: ButtonMouseFunctionArg::Forward } => control
                == PulsefireRaidControl::Button5,
            ButtonAssignmentCommand::WindowsShortcut { .. } => control == PulsefireRaidControl::Button5,
            _ => true,
        };
        let (binding, description) = match self {
            ButtonAssignmentCommand::Disabled => (ButtonBinding::Disabled, "disabled"),
            ButtonAssignmentCommand::Mouse { function } => match function {
                ButtonMouseFunctionArg::Forward => (ButtonBinding::Mouse(MouseFunction::Forward), "mouse forward"),
                ButtonMouseFunctionArg::Back => (ButtonBinding::Mouse(MouseFunction::Back), "mouse back"),
                ButtonMouseFunctionArg::DpiToggle => (ButtonBinding::Mouse(MouseFunction::DpiToggle), "mouse DPI toggle"),
            },
            ButtonAssignmentCommand::Multimedia { function } => match function {
                ButtonMultimediaFunctionArg::VolumeUp => (
                    ButtonBinding::Multimedia(MultimediaFunction::VolumeUp),
                    "multimedia volume-up",
                ),
                ButtonMultimediaFunctionArg::VolumeDown => (
                    ButtonBinding::Multimedia(MultimediaFunction::VolumeDown),
                    "multimedia volume-down",
                ),
            },
            ButtonAssignmentCommand::WindowsShortcut { .. } => (
                ButtonBinding::WindowsShortcut(WindowsShortcut::Copy),
                "Windows shortcut copy",
            ),
            ButtonAssignmentCommand::Keyboard { key } => {
                let assignment = match PulsefireRaidRuntimeAssignment::ordinary(control, ButtonBinding::Keyboard(key)) {
                    Ok(a) => a,
                    Err(e) => return Err(e),
                };
                let mut text = String::new();
                string_push_str(&mut text, "keyboard HID usage 0x");
                push_byte_hex_upper(&mut text, key.0 as u8);
                return Ok((assignment, text));
            },
        };
        if !offered {
            return Err(PulsefireRaidError::UnconfirmedRuntimeButtonBinding { control, binding });
        }
        let assignment = match PulsefireRaidRuntimeAssignment::ordinary(control, binding) {
            Ok(a) => a,
            Err(e) => return Err(e),
        };
        let mut text = String::new();
        string_push_str(&mut text, description);
        Ok((assignment, text))
    }
}

/// One byte that differs between two byte strings; a missing byte is `None`.
#[derive(Clone, Copy, Debug, PartialEq, Eq, Structural)]
pub struct RawByteChange {
    pub offset: usize,
    pub before: Option<u8>,
    pub after: Option<u8>,
}

pub open spec fn byte_or_none(bytes: Seq<u8>, i: int) -> Option<u8> {
    if 0 <= i < bytes.len() {
        Some(bytes[i])
    } else {
        None
    }
}

/// The differing offsets from `offset` up to `count`, in order.
pub open spec fn raw_changes_from(before: Seq<u8>, after: Seq<u8>, offset: nat, count: nat) -> Seq<RawByteChange>
    decreases count - offset,
{
    if offset >= count {
        seq![]
    } else {
        let rest = raw_changes_from(before, after, offset + 1, count);
        if byte_or_none(before, offset as int) != byte_or_none(after, offset as int) {
            seq![RawByteChange {
                offset: offset as usize,
                before: byte_or_none(before, offset as int),
                after: byte_or_none(after, offset as int),
            }] + rest
        } else {
            rest
        }
    }
}

fn byte_at(bytes: &[u8], i: usize) -> (b: Option<u8>)
    ensures
        b == byte_or_none(bytes@, i as int),
{
    if i < bytes.len() {
        Some(bytes[i])
    } else {
        None
    }
}

fn same_optional_byte(a: Option<u8>, b: Option<u8>) -> (same: bool)
    ensures
        same == (a == b),
{
    match (a, b) {
        (Some(x), Some(y)) => x == y,
        (None, None) => true,
        _ => false,
    }
}

/// Every offset at which two byte strings differ, over the longer length.
pub fn raw_byte_changes(before: &[u8], after: &[u8]) -> (changes: Vec<RawByteChange>)
    ensures
        changes@ == raw_changes_from(
            before@,
            after@,
            0,
            if before@.len() >= after@.len() {
                before@.len()
            } else {
                after@.len()
            },
        ),
{
    let count = if before.len() >= after.len() {
        before.len()
    } else {
        after.len()
    };
    let mut changes: Vec<RawByteChange> = Vec::new();
    let mut offset: usize = 0;
    while offset < count
        invariant
            offset <= count,
            raw_changes_from(before@, after@, 0, count as nat) == changes@ + raw_changes_from(
                before@,
                after@,
                offset as nat,
                count as nat,
            ),
        decreases count - offset,
    {
        let left = byte_at(before, offset);
        let right = byte_at(after, offset);
        if !same_optional_byte(left, right) {
            let ghost old_changes = changes@;
            changes.push(RawByteChange { offset, before: left, after: right });
            assert(old_changes + raw_changes_from(before@, after@, offset as nat, count as nat) =~= changes@
                + raw_changes_from(before@, after@, (offset + 1) as nat, count as nat));
        }
        offset += 1;
    }
    assert(changes@ + raw_changes_from(before@, after@, offset as nat, count as nat) =~= changes@);
    changes
}

/// `TX`, `RX` or `--`.
pub fn format_direction(direction: Option<Direction>) -> (text: &'static str)
    ensures
        text@ == match direction {
            Some(Direction::Tx) => "TX"@,
            Some(Direction::Rx) => "RX"@,
            None => "--"@,
        },
{
    match direction {
        Some(Direction::Tx) => "TX",
        Some(Direction::Rx) => "RX",
        None => "--",
    }
}

/// Two upper-case hexadecimal digits, or `--` for a missing byte.
pub fn format_optional_byte(byte: Option<u8>) -> (text: String)
    ensures
        text@ == match byte {
            Some(b) => byte_hex_upper(b),
            None => "--"@,
        },
{
    let mut text = String::new();
    match byte {
        Some(b) => push_byte_hex_upper(&mut text, b),
        None => string_push_str(&mut text, "--"),
    }
    text
}

pub open spec fn mouse_function_text(function: MouseFunction) -> Seq<char> {
    match function {
        MouseFunction::LeftClick => "left click"@,
        MouseFunction::RightClick => "right click"@,
        MouseFunction::MiddleClick => "middle click"@,
        MouseFunction::Back => "back"@,
        MouseFunction::Forward => "forward"@,
        MouseFunction::TiltLeft => "tilt left"@,
        MouseFunction::TiltRight => "tilt right"@,
        MouseFunction::DpiToggle => "DPI toggle"@,
        MouseFunction::ScrollUp => "scroll up"@,
        MouseFunction::ScrollDown => "scroll down"@,
    }
}

pub fn mouse_function_name(function: MouseFunction) -> (name: &'static str)
    ensures
        name@ == mouse_function_text(function),
{
    match function {
        MouseFunction::LeftClick => "left click",
        MouseFunction::RightClick => "right click",
        MouseFunction::MiddleClick => "middle click",
        MouseFunction::Back => "back",
        MouseFunction::Forward => "forward",
        MouseFunction::TiltLeft => "tilt left",
        MouseFunction::TiltRight => "tilt right",
        MouseFunction::DpiToggle => "DPI toggle",
        MouseFunction::ScrollUp => "scroll up",
        MouseFunction::ScrollDown => "scroll down",
    }
}

pub open spec fn multimedia_function_text(function: MultimediaFunction) -> Seq<char> {
    match function {
        MultimediaFunction::PlayPause => "play/pause"@,
        MultimediaFunction::Stop => "stop"@,
        MultimediaFunction::NextTrack => "next track"@,
        MultimediaFunction::PreviousTrack => "previous track"@,
        MultimediaFunction::MuteVolume => "mute volume"@,
        MultimediaFunction::VolumeUp => "volume up"@,
        MultimediaFunction::VolumeDown => "volume down"@,
    }
}

pub fn multimedia_function_name(function: MultimediaFunction) -> (name: &'static str)
    ensures
        name@ == multimedia_function_text(function),
{
    match function {
        MultimediaFunction::PlayPause => "play/pause",
        MultimediaFunction::Stop => "stop",
        MultimediaFunction::NextTrack => "next track",
        MultimediaFunction::PreviousTrack => "previous track",
        MultimediaFunction::MuteVolume => "mute volume",
        MultimediaFunction::VolumeUp => "volume up",
        MultimediaFunction::VolumeDown => "volume down",
    }
}

pub open spec fn windows_shortcut_text(shortcut: WindowsShortcut) -> Seq<char> {
    match shortcut {
        WindowsShortcut::CycleApps => "cycle apps"@,
        WindowsShortcut::SwitchApps => "switch apps"@,
        WindowsShortcut::Cut => "cut"@,
        WindowsShortcut::Copy => "copy"@,
        WindowsShortcut::Paste => "paste"@,
        WindowsShortcut::Undo => "undo"@,
    }
}

pub fn windows_shortcut_name(shortcut: WindowsShortcut) -> (name: &'static str)
    ensures
        name@ == windows_shortcut_text(shortcut),
{
    match shortcut {
        WindowsShortcut::CycleApps => "cycle apps",
        WindowsShortcut::SwitchApps => "switch apps",
        WindowsShortcut::Cut => "cut",
        WindowsShortcut::Copy => "copy",
        WindowsShortcut::Paste => "paste",
        WindowsShortcut::Undo => "undo",
    }
}

/// `MacroPlayback` as `{:?}` prints it.
pub open spec fn playback_debug_text(playback: MacroPlayback) -> Seq<char> {
    match playback {
        MacroPlayback::Once => "Once"@,
        MacroPlayback::ToggleRepeat => "ToggleRepeat"@,
        MacroPlayback::RepeatWhileHeld => "RepeatWhileHeld"@,
    }
}

/// The text shown for a decoded binding.
pub open spec fn binding_text(binding: ButtonBinding) -> Seq<char> {
    match binding {
        ButtonBinding::Mouse(f) => "Mouse: "@ + mouse_function_text(f),
        ButtonBinding::Keyboard(u) => "Keyboard HID usage 0x"@ + u16_hex_upper(u.0),
        ButtonBinding::Multimedia(f) => "Multimedia: "@ + multimedia_function_text(f),
        ButtonBinding::Macro(m) => "Macro: "@ + m.id@ + " ("@ + playback_debug_text(m.playback) + ")"@,
        ButtonBinding::WindowsShortcut(s) => "Windows shortcut: "@ + windows_shortcut_text(s),
        ButtonBinding::Disabled => "Disabled"@,
    }
}

pub fn format_button_binding(binding: &ButtonBinding) -> (text: String)
    ensures
        text@ == binding_text(*binding),
{
    let mut text = String::new();
    match binding {
        ButtonBinding::Mouse(f) => {
            string_push_str(&mut text, "Mouse: ");
            string_push_str(&mut text, mouse_function_name(*f));
        },
        ButtonBinding::Keyboard(u) => {
            string_push_str(&mut text, "Keyboard HID usage 0x");
            push_u16_hex_upper(&mut text, u.0);
        },
        ButtonBinding::Multimedia(f) => {
            string_push_str(&mut text, "Multimedia: ");
            string_push_str(&mut text, multimedia_function_name(*f));
        },
        ButtonBinding::Macro(m) => {
            string_push_str(&mut text, "Macro: ");
            string_push_str(&mut text, m.id.as_str());
            string_push_str(&mut text, " (");
            match m.playback {
                MacroPlayback::Once => string_push_str(&mut text, "Once"),
                MacroPlayback::ToggleRepeat => string_push_str(&mut text, "ToggleRepeat"),
                MacroPlayback::RepeatWhileHeld => string_push_str(&mut text, "RepeatWhileHeld"),
            }
            string_push_str(&mut text, ")");
        },
        ButtonBinding::WindowsShortcut(s) => {
            string_push_str(&mut text, "Windows shortcut: ");
            string_push_str(&mut text, windows_shortcut_name(*s));
        },
        ButtonBinding::Disabled => string_push_str(&mut text, "Disabled"),
    }
    text
}

/// Which descriptive string of a HID collection to show.
#[derive(Clone, Copy, Debug, PartialEq, Eq, Structural)]
pub enum InterfaceStringField {
    Manufacturer,
    Product,
    SerialNumber,
}

pub open spec fn interface_field(info: HidInterfaceInfo, field: InterfaceStringField) -> Option<String> {
    match field {
        InterfaceStringField::Manufacturer => info.manufacturer,
        InterfaceStringField::Product => info.product,
        InterfaceStringField::SerialNumber => info.serial_number,
    }
}

/// The first present value of a field from position `k` on.
pub open spec fn first_present(interfaces: Seq<HidInterfaceInfo>, field: InterfaceStringField, k: int) -> Option<
    Seq<char>,
>
    decreases interfaces.len() - k,
{
    if k < 0 || k >= interfaces.len() {
        None
    } else {
        match interface_field(interfaces[k], field) {
            Some(v) => Some(v@),
            None => first_present(interfaces, field, k + 1),
        }
    }
}

/// The first present value of a field among the collections of a device.
pub fn first_value(interfaces: &[HidInterfaceInfo], field: InterfaceStringField) -> (value: Option<String>)
    ensures
        match value {
            Some(v) => first_present(interfaces@, field, 0) == Some(v@),
            None => first_present(interfaces@, field, 0) is None,
        },
{
    let mut i: usize = 0;
    while i < interfaces.len()
        invariant
            i <= interfaces@.len(),
            first_present(interfaces@, field, 0) == first_present(interfaces@, field, i as int),
        decreases interfaces.len() - i,
    {
        let info = &interfaces[i];
        let selected = match field {
            InterfaceStringField::Manufacturer => &info.manufacturer,
            InterfaceStringField::Product => &info.product,
            InterfaceStringField::SerialNumber => &info.serial_number,
        };
        if let Some(s) = selected {
            return Some(s.clone());
        }
        i += 1;
    }
    None
}

/// Why the configuration collection could not be chosen.
#[derive(Clone, Copy, Debug, PartialEq, Eq, Structural)]
pub enum ConfigurationSelectionError {
    NotFound,
    Ambiguous,
}

impl ConfigurationSelectionError {
    pub fn to_string(&self) -> (text: String)
        ensures
            match self {
                ConfigurationSelectionError::NotFound => text@
                    == "Pulsefire Raid configuration collection MI_01/FF01:0001 was not found"@,
                ConfigurationSelectionError::Ambiguous => text@
                    == "multiple Pulsefire Raid configuration collections found; explicit device selection is not implemented yet"@,
            },
    {
        let mut text = String::new();
        match self {
            ConfigurationSelectionError::NotFound => string_push_str(
                &mut text,
                "Pulsefire Raid configuration collection MI_01/FF01:0001 was not found",
            ),
            ConfigurationSelectionError::Ambiguous => string_push_str(
                &mut text,
                "multiple Pulsefire Raid configuration collections found; explicit device selection is not implemented yet",
            ),
        }
        text
    }
}

/// Whether a collection is the Pulsefire Raid configuration collection.
pub open spec fn is_configuration_collection(info: HidInterfaceInfo) -> bool {
    info.vendor_id == 0x0951 && info.product_id == 0x16E4 && info.interface_number == 1
        && info.usage_page == 0xFF01 && info.usage == 0x0001
}

/// The one configuration collection among `interfaces`, by index.
pub fn select_configuration_interface(interfaces: &[HidInterfaceInfo]) -> (res: Result<usize, ConfigurationSelectionError>)
    ensures
        res matches Ok(i) ==> i < interfaces@.len() && is_configuration_collection(interfaces@[i as int])
            && forall|j: int| 0 <= j < interfaces@.len() && j != i ==> !is_configuration_collection(#[trigger] interfaces@[j]),
        res == Err::<usize, ConfigurationSelectionError>(ConfigurationSelectionError::NotFound) <==> forall|j: int|
            0 <= j < interfaces@.len() ==> !is_configuration_collection(#[trigger] interfaces@[j]),
        res == Err::<usize, ConfigurationSelectionError>(ConfigurationSelectionError::Ambiguous) <==> exists|a: int, b: int|
            0 <= a < b < interfaces@.len() && is_configuration_collection(#[trigger] interfaces@[a])
                && is_configuration_collection(#[trigger] interfaces@[b]),
{
    let mut found: Option<usize> = None;
    let mut i: usize = 0;
    while i < interfaces.len()
        invariant
            i <= interfaces@.len(),
            match found {
                None => forall|j: int| 0 <= j < i ==> !is_configuration_collection(#[trigger] interfaces@[j]),
                Some(f) => f < i && is_configuration_collection(interfaces@[f as int]) && forall|j: int|
                    0 <= j < i && j != f ==> !is_configuration_collection(#[trigger] interfaces@[j]),
            },
        decreases interfaces.len() - i,
    {
        let info = &interfaces[i];
        let selector = crate::device::InterfaceSelector { interface_number: 1, usage_page: 0xFF01, usage: 0x0001 };
        let id = info.usb_id();
        if id.vendor_id == 0x0951 && id.product_id == 0x16E4 && info.matches(selector) {
            match found {
                Some(f) => {
                    assert(is_configuration_collection(interfaces@[f as int]));
                    assert(is_configuration_collection(interfaces@[i as int]));
                    return Err(ConfigurationSelectionError::Ambiguous);
                },
                None => {
                    found = Some(i);
                },
            }
        }
        i += 1;
    }
    match found {
        Some(f) => Ok(f),
        None => Err(ConfigurationSelectionError::NotFound),
    }
}

/// Why a lighting program cannot run on the Pulsefire Raid.
#[derive(Debug, PartialEq, Eq)]
pub enum LightingProgramError {
    Invalid(SoftwareLightingError),
    UnknownZone(String),
    TriggersUnsupported,
}

pub open spec fn is_raid_zone(zone: Seq<char>) -> bool {
    zone == "wheel"@ || zone == "logo"@
}

/// The portable checks of a program pass.
pub open spec fn program_is_valid(program: SoftwareLightingProgram) -> bool {
    program_base_error(program.duration_seconds, program.frame_interval_ms, program.zones@.len()) is None
        && forall|i: int| 0 <= i < program.zones@.len() ==> effect_error(#[trigger] program.zones@[i].1) is None
}

/// Check a program for the Pulsefire Raid: the portable checks, then only
/// the `wheel` and `logo` zones, then triggered effects only where a trigger
/// source exists.
pub fn validate_pulsefire_raid_lighting_program(program: &SoftwareLightingProgram, triggers_supported: bool) -> (res: Result<
    (),
    LightingProgramError,
>)
    requires
        zones_in_name_order(program.zones@),
    ensures
        res is Ok <==> (program_base_error(program.duration_seconds, program.frame_interval_ms, program.zones@.len()) is None
            && (forall|i: int| 0 <= i < program.zones@.len() ==> effect_error(#[trigger] program.zones@[i].1) is None)
            && (forall|i: int| 0 <= i < program.zones@.len() ==> is_raid_zone(#[trigger] program.zones@[i].0@))
            && (triggers_supported || !exists|i: int| 0 <= i < program.zones@.len() && #[trigger] program.zones@[i].1 is TriggeredFade)),
        (res matches Err(LightingProgramError::Invalid(_))) <==> !program_is_valid(*program),
        res matches Err(LightingProgramError::Invalid(e)) ==> match program_base_error(
            program.duration_seconds,
            program.frame_interval_ms,
            program.zones@.len(),
        ) {
            Some(b) => e == b,
            None => exists|j: int|
                0 <= j < program.zones@.len() && (forall|i: int|
                    0 <= i < j ==> effect_error(#[trigger] program.zones@[i].1) is None) && (e matches SoftwareLightingError::InvalidZoneEffect {
                    zone,
                    source,
                } && zone@ == program.zones@[j].0@ && Some(*source) == effect_error(#[trigger] program.zones@[j].1)),
        },
        (res matches Err(LightingProgramError::UnknownZone(_))) <==> (program_is_valid(*program) && exists|i: int|
            0 <= i < program.zones@.len() && !is_raid_zone(#[trigger] program.zones@[i].0@)),
        res matches Err(LightingProgramError::UnknownZone(z)) ==> exists|i: int|
            0 <= i < program.zones@.len() && #[trigger] program.zones@[i].0@ == z@ && !is_raid_zone(z@)
                && forall|k: int| 0 <= k < i ==> is_raid_zone(#[trigger] program.zones@[k].0@),
{
    if let Err(e) = program.validate() {
        return Err(LightingProgramError::Invalid(e));
    }
    let mut i: usize = 0;
    while i < program.zones.len()
        invariant
            i <= program.zones@.len(),
            forall|k: int| 0 <= k < i ==> is_raid_zone(#[trigger] program.zones@[k].0@),
            program_is_valid(*program),
        decreases program.zones.len() - i,
    {
        let zone = &program.zones[i].0;
        let chars = str_chars(zone.as_str());
        if !(chars_eq_str(&chars, "wheel") || chars_eq_str(&chars, "logo")) {
            return Err(LightingProgramError::UnknownZone(zone.clone()));
        }
        i += 1;
    }
    if program.uses_triggers() && !triggers_supported {
        return Err(LightingProgramError::TriggersUnsupported);
    }
    Ok(())
}

} // verus!

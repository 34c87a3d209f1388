//! Button bindings and macro definitions, independent of any device.
use vstd::prelude::*;
use crate::text::{
    ascii_lower, ascii_lower_char, chars_eq_str, parse_unsigned, parse_unsigned_range, str_chars,
    string_from_chars, trim, trim_range,
};
use crate::text::string_push_str;

verus! {

/// A semantic action assigned to a programmable device button.
#[derive(Clone, Debug, PartialEq, Eq)]
pub enum ButtonBinding {
    Mouse(MouseFunction),
    Keyboard(KeyboardUsage),
    Multimedia(MultimediaFunction),
    Macro(MacroBinding),
    WindowsShortcut(WindowsShortcut),
    Disabled,
}

/// Mouse actions exposed by NGENUITY Legacy for Pulsefire Raid buttons.
#[derive(Clone, Copy, Debug, PartialEq, Eq, Structural)]
pub enum MouseFunction {
    LeftClick,
    RightClick,
    MiddleClick,
    Back,
    Forward,
    TiltLeft,
    TiltRight,
    DpiToggle,
    ScrollUp,
    ScrollDown,
}

/// Consumer-control actions exposed by NGENUITY Legacy.
#[derive(Clone, Copy, Debug, PartialEq, Eq, Structural)]
pub enum MultimediaFunction {
    PlayPause,
    Stop,
    NextTrack,
    PreviousTrack,
    MuteVolume,
    VolumeUp,
    VolumeDown,
}

/// Named Windows actions exposed by NGENUITY Legacy.
#[derive(Clone, Copy, Debug, PartialEq, Eq, Structural)]
pub enum WindowsShortcut {
    CycleApps,
    SwitchApps,
    Cut,
    Copy,
    Paste,
    Undo,
}

/// A usage ID from the USB HID Keyboard/Keypad usage page (`0x07`).
#[derive(Clone, Copy, Debug, PartialEq, Eq, Structural)]
pub struct KeyboardUsage(pub u16);

/// Error returned when a human-readable keyboard key name is unknown; it
/// holds the rejected text.
#[derive(Clone, Debug, PartialEq, Eq)]
pub struct KeyboardUsageParseError(pub String);

/// Press/release state for one keyboard event in a macro.
#[derive(Clone, Copy, Debug, PartialEq, Eq, Structural)]
pub enum KeyState {
    Pressed,
    Released,
}

/// One keyboard event and its associated timing value.
#[derive(Clone, Copy, Debug, PartialEq, Eq, Structural)]
pub struct KeyboardMacroEvent {
    pub usage: KeyboardUsage,
    pub state: KeyState,
    pub timing_ms: u16,
}

impl KeyboardMacroEvent {
    pub fn pressed(usage: KeyboardUsage, timing_ms: u16) -> (event: Self)
        ensures
            event == (KeyboardMacroEvent { usage, state: KeyState::Pressed, timing_ms }),
    {
        KeyboardMacroEvent { usage, state: KeyState::Pressed, timing_ms }
    }

    pub fn released(usage: KeyboardUsage, timing_ms: u16) -> (event: Self)
        ensures
            event == (KeyboardMacroEvent { usage, state: KeyState::Released, timing_ms }),
    {
        KeyboardMacroEvent { usage, state: KeyState::Released, timing_ms }
    }
}

/// Reference to an application or onboard macro and its playback policy.
#[derive(Clone, Debug, PartialEq, Eq)]
pub struct MacroBinding {
    pub id: String,
    pub playback: MacroPlayback,
}

/// The coupled assignment of the two primary buttons: either both keep
/// their own click, or the two clicks are exchanged.
#[derive(Clone, Copy, Debug, PartialEq, Eq, Structural)]
pub enum PrimaryButtonLayout {
    Standard,
    Swapped,
}

/// Macro playback policies observed in NGENUITY Legacy.
#[derive(Clone, Copy, Debug, PartialEq, Eq, Structural)]
pub enum MacroPlayback {
    Once,
    ToggleRepeat,
    RepeatWhileHeld,
}

/// The kebab-case name of a playback policy.
pub open spec fn playback_name(playback: MacroPlayback) -> Seq<char> {
    match playback {
        MacroPlayback::Once => "once"@,
        MacroPlayback::ToggleRepeat => "toggle-repeat"@,
        MacroPlayback::RepeatWhileHeld => "repeat-while-held"@,
    }
}

impl MacroPlayback {
    /// The kebab-case name, as used in macro files.
    pub fn to_string(&self) -> (name: String)
        ensures
            name@ == playback_name(*self),
    {
        let mut name = String::new();
        match self {
            MacroPlayback::Once => string_push_str(&mut name, "once"),
            MacroPlayback::ToggleRepeat => string_push_str(&mut name, "toggle-repeat"),
            MacroPlayback::RepeatWhileHeld => string_push_str(&mut name, "repeat-while-held"),
        }
        name
    }
}

/// Platform-independent software macro definition.
#[derive(Clone, Debug, PartialEq, Eq)]
pub struct MacroDefinition {
    pub playback: MacroPlayback,
    pub events: Vec<MacroEvent>,
}

/// One input transition followed by an exact delay before the next event.
#[derive(Clone, Debug, PartialEq, Eq)]
pub enum MacroEvent {
    KeyDown { key: String, delay_ms: u16 },
    KeyUp { key: String, delay_ms: u16 },
    MouseButtonDown { button: String, delay_ms: u16 },
    MouseButtonUp { button: String, delay_ms: u16 },
}


/// A macro event with its key or button name as characters.
pub enum MacroEventView {
    KeyDown { key: Seq<char>, delay_ms: u16 },
    KeyUp { key: Seq<char>, delay_ms: u16 },
    MouseButtonDown { button: Seq<char>, delay_ms: u16 },
    MouseButtonUp { button: Seq<char>, delay_ms: u16 },
}

impl View for MacroEvent {
    type V = MacroEventView;

    open spec fn view(&self) -> MacroEventView {
        match self {
            MacroEvent::KeyDown { key, delay_ms } => MacroEventView::KeyDown { key: key@, delay_ms: *delay_ms },
            MacroEvent::KeyUp { key, delay_ms } => MacroEventView::KeyUp { key: key@, delay_ms: *delay_ms },
            MacroEvent::MouseButtonDown { button, delay_ms } => MacroEventView::MouseButtonDown {
                button: button@,
                delay_ms: *delay_ms,
            },
            MacroEvent::MouseButtonUp { button, delay_ms } => MacroEventView::MouseButtonUp {
                button: button@,
                delay_ms: *delay_ms,
            },
        }
    }
}

impl MacroBinding {
    /// A copy with equal fields.
    pub fn duplicate(&self) -> (copy: Self)
        ensures
            copy == *self,
    {
        MacroBinding { id: self.id.clone(), playback: self.playback }
    }
}

impl ButtonBinding {
    /// A copy with equal fields.
    pub fn duplicate(&self) -> (copy: Self)
        ensures
            copy == *self,
    {
        match self {
            ButtonBinding::Mouse(f) => ButtonBinding::Mouse(*f),
            ButtonBinding::Keyboard(k) => ButtonBinding::Keyboard(*k),
            ButtonBinding::Multimedia(f) => ButtonBinding::Multimedia(*f),
            ButtonBinding::Macro(m) => ButtonBinding::Macro(m.duplicate()),
            ButtonBinding::WindowsShortcut(s) => ButtonBinding::WindowsShortcut(*s),
            ButtonBinding::Disabled => ButtonBinding::Disabled,
        }
    }
}


/// A key name as it is compared: trimmed, ASCII lower case, with `_` read
/// as `-`.
pub open spec fn normalize_key_name(input: Seq<char>) -> Seq<char> {
    trim(input).map_values(|c: char| if ascii_lower(c) == '_' { '-' } else { ascii_lower(c) })
}

/// The usage of a named key that is not a letter, digit or numbered key.
pub open spec fn named_key_usage(name: Seq<char>) -> Option<u16> {
    if name == "enter"@ || name == "return"@ { Some(0x28) }
    else if name == "escape"@ || name == "esc"@ { Some(0x29) }
    else if name == "backspace"@ { Some(0x2A) }
    else if name == "tab"@ { Some(0x2B) }
    else if name == "space"@ { Some(0x2C) }
    else if name == "minus"@ { Some(0x2D) }
    else if name == "equal"@ || name == "equals"@ { Some(0x2E) }
    else if name == "left-bracket"@ { Some(0x2F) }
    else if name == "right-bracket"@ { Some(0x30) }
    else if name == "backslash"@ { Some(0x31) }
    else if name == "non-us-hash"@ { Some(0x32) }
    else if name == "semicolon"@ { Some(0x33) }
    else if name == "apostrophe"@ || name == "quote"@ { Some(0x34) }
    else if name == "grave"@ || name == "backtick"@ { Some(0x35) }
    else if name == "comma"@ { Some(0x36) }
    else if name == "period"@ || name == "dot"@ { Some(0x37) }
    else if name == "slash"@ { Some(0x38) }
    else if name == "caps-lock"@ { Some(0x39) }
    else if name == "print-screen"@ { Some(0x46) }
    else if name == "scroll-lock"@ { Some(0x47) }
    else if name == "pause"@ { Some(0x48) }
    else if name == "insert"@ { Some(0x49) }
    else if name == "home"@ { Some(0x4A) }
    else if name == "page-up"@ { Some(0x4B) }
    else if name == "delete"@ { Some(0x4C) }
    else if name == "end"@ { Some(0x4D) }
    else if name == "page-down"@ { Some(0x4E) }
    else if name == "arrow-right"@ || name == "right-arrow"@ { Some(0x4F) }
    else if name == "arrow-left"@ || name == "left-arrow"@ { Some(0x50) }
    else if name == "arrow-down"@ || name == "down-arrow"@ { Some(0x51) }
    else if name == "arrow-up"@ || name == "up-arrow"@ { Some(0x52) }
    else if name == "num-lock"@ { Some(0x53) }
    else if name == "keypad-divide"@ { Some(0x54) }
    else if name == "keypad-multiply"@ { Some(0x55) }
    else if name == "keypad-subtract"@ { Some(0x56) }
    else if name == "keypad-add"@ { Some(0x57) }
    else if name == "keypad-enter"@ { Some(0x58) }
    else if name == "keypad-decimal"@ { Some(0x63) }
    else if name == "non-us-backslash"@ { Some(0x64) }
    else if name == "application"@ || name == "menu"@ { Some(0x65) }
    else if name == "power"@ { Some(0x66) }
    else if name == "keypad-equal"@ { Some(0x67) }
    else if name == "left-control"@ || name == "left-ctrl"@ { Some(0xE0) }
    else if name == "left-shift"@ { Some(0xE1) }
    else if name == "left-alt"@ { Some(0xE2) }
    else if name == "left-gui"@ || name == "left-windows"@ || name == "left-win"@ { Some(0xE3) }
    else if name == "right-control"@ || name == "right-ctrl"@ { Some(0xE4) }
    else if name == "right-shift"@ { Some(0xE5) }
    else if name == "right-alt"@ { Some(0xE6) }
    else if name == "right-gui"@ || name == "right-windows"@ || name == "right-win"@ { Some(0xE7) }
    else { None }
}

pub open spec fn f_key_name(name: Seq<char>) -> Option<nat> {
    if name.len() > 0 && name[0] == 'f' {
        parse_unsigned(name.drop_first(), 65535)
    } else {
        None
    }
}

pub open spec fn keypad_prefix() -> Seq<char> {
    seq!['k', 'e', 'y', 'p', 'a', 'd', '-']
}

pub open spec fn keypad_number(name: Seq<char>) -> Option<nat> {
    if name.len() >= 7 && name.take(7) == keypad_prefix() {
        parse_unsigned(name.skip(7), 65535)
    } else {
        None
    }
}

/// The usage named by a normalized key name, if any.
pub open spec fn key_usage_from_name(name: Seq<char>) -> Option<u16> {
    if name.len() == 1 && 'a' <= name[0] <= 'z' {
        Some((name[0] as int - 'a' as int + 0x04) as u16)
    } else if name.len() == 1 && '1' <= name[0] <= '9' {
        Some((name[0] as int - '1' as int + 0x1E) as u16)
    } else if name == seq!['0'] {
        Some(0x27)
    } else if f_key_name(name) is Some {
        let n = f_key_name(name)->Some_0;
        if 1 <= n <= 12 {
            Some((0x3A + n - 1) as u16)
        } else if 13 <= n <= 24 {
            Some((0x68 + n - 13) as u16)
        } else {
            None
        }
    } else if keypad_number(name) is Some {
        let n = keypad_number(name)->Some_0;
        if 1 <= n <= 9 {
            Some((0x59 + n - 1) as u16)
        } else if n == 0 {
            Some(0x62)
        } else {
            None
        }
    } else {
        named_key_usage(name)
    }
}

fn named_key_usage_exec(name: &[char]) -> (usage: Option<u16>)
    ensures
        usage == named_key_usage(name@),
{
    if chars_eq_str(name, "enter") || chars_eq_str(name, "return") { Some(0x28) }
    else if chars_eq_str(name, "escape") || chars_eq_str(name, "esc") { Some(0x29) }
    else if chars_eq_str(name, "backspace") { Some(0x2A) }
    else if chars_eq_str(name, "tab") { Some(0x2B) }
    else if chars_eq_str(name, "space") { Some(0x2C) }
    else if chars_eq_str(name, "minus") { Some(0x2D) }
    else if chars_eq_str(name, "equal") || chars_eq_str(name, "equals") { Some(0x2E) }
    else if chars_eq_str(name, "left-bracket") { Some(0x2F) }
    else if chars_eq_str(name, "right-bracket") { Some(0x30) }
    else if chars_eq_str(name, "backslash") { Some(0x31) }
    else if chars_eq_str(name, "non-us-hash") { Some(0x32) }
    else if chars_eq_str(name, "semicolon") { Some(0x33) }
    else if chars_eq_str(name, "apostrophe") || chars_eq_str(name, "quote") { Some(0x34) }
    else if chars_eq_str(name, "grave") || chars_eq_str(name, "backtick") { Some(0x35) }
    else if chars_eq_str(name, "comma") { Some(0x36) }
    else if chars_eq_str(name, "period") || chars_eq_str(name, "dot") { Some(0x37) }
    else if chars_eq_str(name, "slash") { Some(0x38) }
    else if chars_eq_str(name, "caps-lock") { Some(0x39) }
    else if chars_eq_str(name, "print-screen") { Some(0x46) }
    else if chars_eq_str(name, "scroll-lock") { Some(0x47) }
    else if chars_eq_str(name, "pause") { Some(0x48) }
    else if chars_eq_str(name, "insert") { Some(0x49) }
    else if chars_eq_str(name, "home") { Some(0x4A) }
    else if chars_eq_str(name, "page-up") { Some(0x4B) }
    else if chars_eq_str(name, "delete") { Some(0x4C) }
    else if chars_eq_str(name, "end") { Some(0x4D) }
    else if chars_eq_str(name, "page-down") { Some(0x4E) }
    else if chars_eq_str(name, "arrow-right") || chars_eq_str(name, "right-arrow") { Some(0x4F) }
    else if chars_eq_str(name, "arrow-left") || chars_eq_str(name, "left-arrow") { Some(0x50) }
    else if chars_eq_str(name, "arrow-down") || chars_eq_str(name, "down-arrow") { Some(0x51) }
    else if chars_eq_str(name, "arrow-up") || chars_eq_str(name, "up-arrow") { Some(0x52) }
    else if chars_eq_str(name, "num-lock") { Some(0x53) }
    else if chars_eq_str(name, "keypad-divide") { Some(0x54) }
    else if chars_eq_str(name, "keypad-multiply") { Some(0x55) }
    else if chars_eq_str(name, "keypad-subtract") { Some(0x56) }
    else if chars_eq_str(name, "keypad-add") { Some(0x57) }
    else if chars_eq_str(name, "keypad-enter") { Some(0x58) }
    else if chars_eq_str(name, "keypad-decimal") { Some(0x63) }
    else if chars_eq_str(name, "non-us-backslash") { Some(0x64) }
    else if chars_eq_str(name, "application") || chars_eq_str(name, "menu") { Some(0x65) }
    else if chars_eq_str(name, "power") { Some(0x66) }
    else if chars_eq_str(name, "keypad-equal") { Some(0x67) }
    else if chars_eq_str(name, "left-control") || chars_eq_str(name, "left-ctrl") { Some(0xE0) }
    else if chars_eq_str(name, "left-shift") { Some(0xE1) }
    else if chars_eq_str(name, "left-alt") { Some(0xE2) }
    else if chars_eq_str(name, "left-gui") || chars_eq_str(name, "left-windows") || chars_eq_str(name, "left-win") { Some(0xE3) }
    else if chars_eq_str(name, "right-control") || chars_eq_str(name, "right-ctrl") { Some(0xE4) }
    else if chars_eq_str(name, "right-shift") { Some(0xE5) }
    else if chars_eq_str(name, "right-alt") { Some(0xE6) }
    else if chars_eq_str(name, "right-gui") || chars_eq_str(name, "right-windows") || chars_eq_str(name, "right-win") { Some(0xE7) }
    else { None }
}

/// The normalized form of a key name.
pub fn normalize_key(input: &str) -> (name: Vec<char>)
    ensures
        name@ == normalize_key_name(input@),
{
    let chars = str_chars(input);
    let trimmed = trim_range(&chars, 0, chars.len());
    assert(chars@.subrange(0, chars@.len() as int) =~= chars@);
    let mut name: Vec<char> = Vec::new();
    let mut i: usize = 0;
    while i < trimmed.len()
        invariant
            i <= trimmed@.len(),
            name@ == trimmed@.take(i as int).map_values(
                |c: char| if ascii_lower(c) == '_' { '-' } else { ascii_lower(c) },
            ),
        decreases trimmed.len() - i,
    {
        let lower = ascii_lower_char(trimmed[i]);
        let c = if lower == '_' { '-' } else { lower };
        name.push(c);
        i += 1;
        assert(name@ =~= trimmed@.take(i as int).map_values(
            |c: char| if ascii_lower(c) == '_' { '-' } else { ascii_lower(c) },
        ));
    }
    assert(trimmed@.take(i as int) =~= trimmed@);
    name
}

fn keypad_prefix_matches(name: &[char]) -> (found: bool)
    ensures
        found == (name@.len() >= 7 && name@.take(7) == keypad_prefix()),
{
    if name.len() < 7 {
        return false;
    }
    let found = name[0] == 'k' && name[1] == 'e' && name[2] == 'y' && name[3] == 'p' && name[4]
        == 'a' && name[5] == 'd' && name[6] == '-';
    if found {
        assert(name@.take(7) =~= keypad_prefix());
    } else {
        assert(name@.take(7) != keypad_prefix()) by {
            if name@.take(7) == keypad_prefix() {
                assert(name@.take(7)[0] == name@[0]);
                assert(name@.take(7)[1] == name@[1]);
                assert(name@.take(7)[2] == name@[2]);
                assert(name@.take(7)[3] == name@[3]);
                assert(name@.take(7)[4] == name@[4]);
                assert(name@.take(7)[5] == name@[5]);
                assert(name@.take(7)[6] == name@[6]);
            }
        }
    }
    found
}

impl KeyboardUsage {
    /// Parse a human key name, such as `a`, `F12`, `keypad-3`,
    /// `left_shift` or `Enter`, to its HID keyboard usage.
    pub fn parse(input: &str) -> (res: Result<KeyboardUsage, KeyboardUsageParseError>)
        ensures
            match key_usage_from_name(normalize_key_name(input@)) {
                Some(usage) => res == Ok::<KeyboardUsage, KeyboardUsageParseError>(
                    KeyboardUsage(usage),
                ),
                None => res matches Err(KeyboardUsageParseError(text)) && text@ == input@,
            },
    {
        let name = normalize_key(input);
        let ghost n = name@;
        if name.len() == 1 && 'a' <= name[0] && name[0] <= 'z' {
            return Ok(KeyboardUsage((name[0] as u32 - 'a' as u32 + 0x04) as u16));
        }
        if name.len() == 1 && '1' <= name[0] && name[0] <= '9' {
            return Ok(KeyboardUsage((name[0] as u32 - '1' as u32 + 0x1E) as u16));
        }
        if name.len() == 1 && name[0] == '0' {
            assert(n =~= seq!['0']);
            return Ok(KeyboardUsage(0x27));
        }
        assert(n != seq!['0']);
        if name.len() > 0 && name[0] == 'f' {
            assert(n.drop_first() =~= n.subrange(1, n.len() as int));
            if let Some(number) = parse_unsigned_range(&name, 1, name.len(), 65535) {
                if 1 <= number && number <= 12 {
                    return Ok(KeyboardUsage((0x3A + number - 1) as u16));
                } else if 13 <= number && number <= 24 {
                    return Ok(KeyboardUsage((0x68 + number - 13) as u16));
                } else {
                    return Err(KeyboardUsageParseError(string_from_chars(&str_chars(input))));
                }
            }
        }
        if keypad_prefix_matches(&name) {
            assert(n.skip(7) =~= n.subrange(7, n.len() as int));
            if let Some(number) = parse_unsigned_range(&name, 7, name.len(), 65535) {
                if 1 <= number && number <= 9 {
                    return Ok(KeyboardUsage((0x59 + number - 1) as u16));
                } else if number == 0 {
                    return Ok(KeyboardUsage(0x62));
                } else {
                    return Err(KeyboardUsageParseError(string_from_chars(&str_chars(input))));
                }
            }
        }
        match named_key_usage_exec(&name) {
            Some(usage) => Ok(KeyboardUsage(usage)),
            None => Err(KeyboardUsageParseError(string_from_chars(&str_chars(input)))),
        }
    }
}

impl std::str::FromStr for KeyboardUsage {
    type Err = KeyboardUsageParseError;

    /// The same as `KeyboardUsage::parse`.
    fn from_str(input: &str) -> (res: Result<Self, Self::Err>)
        ensures
            match key_usage_from_name(normalize_key_name(input@)) {
                Some(usage) => res == Ok::<KeyboardUsage, KeyboardUsageParseError>(
                    KeyboardUsage(usage),
                ),
                None => res matches Err(KeyboardUsageParseError(text)) && text@ == input@,
            },
    {
        KeyboardUsage::parse(input)
    }
}

} // verus!

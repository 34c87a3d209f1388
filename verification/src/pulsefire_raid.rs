//! Pulsefire Raid report codecs: profile images, button records, DPI stages,
//! the confirmed macro reports and the fixed request reports.
//!
//! Nothing here performs I/O.
use vstd::prelude::*;
use crate::button::{
    ButtonBinding, KeyState, KeyboardMacroEvent, KeyboardUsage, MacroPlayback, MouseFunction,
    MultimediaFunction, PrimaryButtonLayout, WindowsShortcut,
};
use crate::capability::PollingRate;
use crate::color::RgbColor;
use crate::performance::{DpiProfile, DpiStage};
use crate::text::string_push_str;

verus! {

pub const DIRECT_REPORT_ID: u8 = 0x07;

pub const DIRECT_REPORT_LENGTH: usize = 264;

pub const DIRECT_START: u8 = 0x0A;

pub const DIRECT_END: u8 = 0xA0;

pub const PROFILE_ACCESS_OPCODE: u8 = 0x03;

pub const PROFILE_ACCESS_TRAILER: u8 = 0x64;

pub const PROFILE_WRITE_OPCODE: u8 = 0x01;

pub const PROFILE_READ_RESPONSE_OPCODE: u8 = 0x81;

pub const ONBOARD_PROFILE_SECTION: u8 = 0x01;

pub const RUNTIME_PROFILE_SECTION: u8 = 0x04;

pub const POLLING_INTERVAL_OFFSET: usize = 0x18;

pub const ACTIVE_DPI_STAGE_OFFSET: usize = 0x31;

pub const BUTTON_RECORD_LENGTH: usize = 4;

pub const MACRO_REFERENCE_OPCODE: u8 = 0x53;

pub const DPI_UNIT: u32 = 50;

pub const MIN_DPI: u32 = 200;

pub const MAX_DPI: u32 = 16000;

pub const MAX_DPI_STAGES: usize = 5;

/// First byte of the X resolution of DPI stage `i`.
pub open spec fn dpi_x_offset(i: int) -> int {
    0x19 + 2 * i
}

/// First byte of the Y resolution of DPI stage `i`.
pub open spec fn dpi_y_offset(i: int) -> int {
    0x25 + 2 * i
}

/// Enabled flag of DPI stage `i`.
pub open spec fn dpi_enabled_offset(i: int) -> int {
    0x32 + i
}

/// First byte of the color of DPI stage `i`.
pub open spec fn dpi_color_offset(i: int) -> int {
    0x69 + 3 * i
}

#[derive(Clone, Copy, Debug, PartialEq, Eq, Structural)]
pub enum ProfileImageKind {
    HostWrite,
    DeviceReadResponse,
}

#[derive(Clone, Copy, Debug, PartialEq, Eq, Structural)]
pub enum ProfileSection {
    Onboard,
    Runtime,
}

/// Physical controls shown in the Pulsefire Raid button editor.
#[derive(Clone, Copy, Debug, PartialEq, Eq, Structural)]
pub enum PulsefireRaidControl {
    LeftClick,
    RightClick,
    MiddleClick,
    Button4,
    Button5,
    Button7,
    Button6,
    Button8,
    Dpi,
    WheelTiltLeft,
    WheelTiltRight,
}

/// Offset of the four-byte binding record of a control.
pub open spec fn control_offset(control: PulsefireRaidControl) -> int {
    match control {
        PulsefireRaidControl::LeftClick => 0x7C,
        PulsefireRaidControl::RightClick => 0x80,
        PulsefireRaidControl::MiddleClick => 0x84,
        PulsefireRaidControl::Button4 => 0x88,
        PulsefireRaidControl::Button5 => 0x8C,
        PulsefireRaidControl::Button7 => 0x90,
        PulsefireRaidControl::Button6 => 0x94,
        PulsefireRaidControl::Button8 => 0x98,
        PulsefireRaidControl::Dpi => 0x9C,
        PulsefireRaidControl::WheelTiltLeft => 0xA0,
        PulsefireRaidControl::WheelTiltRight => 0xA4,
    }
}

pub open spec fn is_primary_click(control: PulsefireRaidControl) -> bool {
    control == PulsefireRaidControl::LeftClick || control == PulsefireRaidControl::RightClick
}

/// The name shown for a control in the button editor.
pub open spec fn control_name(control: PulsefireRaidControl) -> Seq<char> {
    match control {
        PulsefireRaidControl::LeftClick => "Left click"@,
        PulsefireRaidControl::RightClick => "Right click"@,
        PulsefireRaidControl::MiddleClick => "Wheel click"@,
        PulsefireRaidControl::Button4 => "Button 4"@,
        PulsefireRaidControl::Button5 => "Button 5"@,
        PulsefireRaidControl::Button7 => "Button 7"@,
        PulsefireRaidControl::Button6 => "Button 6"@,
        PulsefireRaidControl::Button8 => "Button 8"@,
        PulsefireRaidControl::Dpi => "DPI button"@,
        PulsefireRaidControl::WheelTiltLeft => "Wheel tilt left"@,
        PulsefireRaidControl::WheelTiltRight => "Wheel tilt right"@,
    }
}

impl PulsefireRaidControl {
    /// Every control, in the order of their records in the profile.
    pub fn all() -> (controls: [PulsefireRaidControl; 11])
        ensures
            controls@ == seq![
                PulsefireRaidControl::LeftClick,
                PulsefireRaidControl::RightClick,
                PulsefireRaidControl::MiddleClick,
                PulsefireRaidControl::Button4,
                PulsefireRaidControl::Button5,
                PulsefireRaidControl::Button7,
                PulsefireRaidControl::Button6,
                PulsefireRaidControl::Button8,
                PulsefireRaidControl::Dpi,
                PulsefireRaidControl::WheelTiltLeft,
                PulsefireRaidControl::WheelTiltRight,
            ],
    {
        let controls = [
            PulsefireRaidControl::LeftClick,
            PulsefireRaidControl::RightClick,
            PulsefireRaidControl::MiddleClick,
            PulsefireRaidControl::Button4,
            PulsefireRaidControl::Button5,
            PulsefireRaidControl::Button7,
            PulsefireRaidControl::Button6,
            PulsefireRaidControl::Button8,
            PulsefireRaidControl::Dpi,
            PulsefireRaidControl::WheelTiltLeft,
            PulsefireRaidControl::WheelTiltRight,
        ];
        assert(controls@ =~= seq![
            PulsefireRaidControl::LeftClick,
            PulsefireRaidControl::RightClick,
            PulsefireRaidControl::MiddleClick,
            PulsefireRaidControl::Button4,
            PulsefireRaidControl::Button5,
            PulsefireRaidControl::Button7,
            PulsefireRaidControl::Button6,
            PulsefireRaidControl::Button8,
            PulsefireRaidControl::Dpi,
            PulsefireRaidControl::WheelTiltLeft,
            PulsefireRaidControl::WheelTiltRight,
        ]);
        controls
    }

    pub fn name(self) -> (name: String)
        ensures
            name@ == control_name(self),
    {
        let mut name = String::new();
        match self {
            PulsefireRaidControl::LeftClick => string_push_str(&mut name, "Left click"),
            PulsefireRaidControl::RightClick => string_push_str(&mut name, "Right click"),
            PulsefireRaidControl::MiddleClick => string_push_str(&mut name, "Wheel click"),
            PulsefireRaidControl::Button4 => string_push_str(&mut name, "Button 4"),
            PulsefireRaidControl::Button5 => string_push_str(&mut name, "Button 5"),
            PulsefireRaidControl::Button7 => string_push_str(&mut name, "Button 7"),
            PulsefireRaidControl::Button6 => string_push_str(&mut name, "Button 6"),
            PulsefireRaidControl::Button8 => string_push_str(&mut name, "Button 8"),
            PulsefireRaidControl::Dpi => string_push_str(&mut name, "DPI button"),
            PulsefireRaidControl::WheelTiltLeft => string_push_str(&mut name, "Wheel tilt left"),
            PulsefireRaidControl::WheelTiltRight => string_push_str(&mut name, "Wheel tilt right"),
        }
        name
    }

    pub fn profile_offset(self) -> (offset: usize)
        ensures
            offset == control_offset(self),
    {
        match self {
            PulsefireRaidControl::LeftClick => 0x7C,
            PulsefireRaidControl::RightClick => 0x80,
            PulsefireRaidControl::MiddleClick => 0x84,
            PulsefireRaidControl::Button4 => 0x88,
            PulsefireRaidControl::Button5 => 0x8C,
            PulsefireRaidControl::Button7 => 0x90,
            PulsefireRaidControl::Button6 => 0x94,
            PulsefireRaidControl::Button8 => 0x98,
            PulsefireRaidControl::Dpi => 0x9C,
            PulsefireRaidControl::WheelTiltLeft => 0xA0,
            PulsefireRaidControl::WheelTiltRight => 0xA4,
        }
    }

    pub fn is_primary_click(self) -> (primary: bool)
        ensures
            primary == is_primary_click(self),
    {
        self == PulsefireRaidControl::LeftClick || self == PulsefireRaidControl::RightClick
    }
}

/// Axis identifying an invalid DPI value in a profile.
#[derive(Clone, Copy, Debug, PartialEq, Eq, Structural)]
pub enum DpiAxis {
    X,
    Y,
}

#[derive(Clone, Debug, PartialEq, Eq)]
pub enum PerformanceProfileError {
    WrongLength(usize),
    WrongReportId(u8),
    UnsupportedOpcode(u8),
    UnsupportedSection(u8),
    UnknownPollingInterval(u8),
    InvalidDpiStageFlag { stage: usize, value: u8 },
    NonContiguousDpiStages { stage: usize },
    NoEnabledDpiStages,
    InvalidActiveDpiStage { active: usize, stage_count: usize },
    InvalidDpiStageCount(usize),
    DpiOutOfRange { stage: usize, axis: DpiAxis, dpi: u32 },
    DpiNotStepAligned { stage: usize, axis: DpiAxis, dpi: u32 },
    UnknownButtonBinding { control: PulsefireRaidControl, record: [u8; 4] },
    KeyboardUsageOutOfRange(u16),
    ButtonBindingNotAllowed { control: PulsefireRaidControl, binding: ButtonBinding },
    UnconfirmedButtonBinding(ButtonBinding),
    UnconfirmedOnboardMacroControl(PulsefireRaidControl),
}

/// A 264-byte Pulsefire Raid profile image with its decoded kind and section.
#[derive(Clone, Debug, PartialEq, Eq)]
pub struct PerformanceProfile {
    report: [u8; 264],
    kind: ProfileImageKind,
    section: ProfileSection,
}

impl View for PerformanceProfile {
    type V = Seq<u8>;

    closed spec fn view(&self) -> Seq<u8> {
        self.report@
    }
}

impl PerformanceProfile {
    pub closed spec fn spec_kind(&self) -> ProfileImageKind {
        self.kind
    }

    pub closed spec fn spec_section(&self) -> ProfileSection {
        self.section
    }

    /// Every profile image is one 264-byte report.
    pub proof fn lemma_len(&self)
        ensures
            self@.len() == 264,
    {
    }
}

/// Kind named by the opcode byte of a profile image.
pub open spec fn image_kind(opcode: u8) -> Option<ProfileImageKind> {
    if opcode == 0x01 {
        Some(ProfileImageKind::HostWrite)
    } else if opcode == 0x81 {
        Some(ProfileImageKind::DeviceReadResponse)
    } else {
        None
    }
}

/// Section named by the section byte of a profile image.
pub open spec fn image_section(section: u8) -> Option<ProfileSection> {
    if section == 0x01 {
        Some(ProfileSection::Onboard)
    } else if section == 0x04 {
        Some(ProfileSection::Runtime)
    } else {
        None
    }
}

/// Why `report` is not a profile image, if it is not one.
pub open spec fn profile_parse_error(report: Seq<u8>) -> Option<PerformanceProfileError> {
    if report.len() != 264 {
        Some(PerformanceProfileError::WrongLength(report.len() as usize))
    } else if report[0] != 0x07 {
        Some(PerformanceProfileError::WrongReportId(report[0]))
    } else if image_kind(report[1]) is None {
        Some(PerformanceProfileError::UnsupportedOpcode(report[1]))
    } else if image_section(report[2]) is None {
        Some(PerformanceProfileError::UnsupportedSection(report[2]))
    } else {
        None
    }
}

/// Polling rate stored in a profile image.
pub open spec fn polling_rate_spec(image: Seq<u8>) -> Result<PollingRate, PerformanceProfileError> {
    let code = image[0x18];
    if code == 0x01 {
        Ok(PollingRate::Hz1000)
    } else if code == 0x02 {
        Ok(PollingRate::Hz500)
    } else if code == 0x04 {
        Ok(PollingRate::Hz250)
    } else if code == 0x08 {
        Ok(PollingRate::Hz125)
    } else {
        Err(PerformanceProfileError::UnknownPollingInterval(code))
    }
}

/// Interval code stored for a polling rate.
pub open spec fn polling_code(rate: PollingRate) -> u8 {
    match rate {
        PollingRate::Hz1000 => 0x01,
        PollingRate::Hz500 => 0x02,
        PollingRate::Hz250 => 0x04,
        PollingRate::Hz125 => 0x08,
    }
}

/// Big-endian 16-bit value at `offset`.
pub open spec fn read_be16(image: Seq<u8>, offset: int) -> int {
    image[offset] * 256 + image[offset + 1]
}

/// DPI stage `i` as stored in the image.
pub open spec fn stage_at(image: Seq<u8>, i: int) -> DpiStage {
    DpiStage {
        x: (read_be16(image, dpi_x_offset(i)) * 50) as u32,
        y: (read_be16(image, dpi_y_offset(i)) * 50) as u32,
        color: RgbColor {
            red: image[dpi_color_offset(i)],
            green: image[dpi_color_offset(i) + 1],
            blue: image[dpi_color_offset(i) + 2],
        },
    }
}

/// Scan the five enabled flags from stage `i` on, collecting enabled stages
/// and rejecting invalid flags and gaps.
pub open spec fn dpi_scan(image: Seq<u8>, i: nat, found_disabled: bool, stages: Seq<DpiStage>) -> Result<
    Seq<DpiStage>,
    PerformanceProfileError,
>
    decreases 5 - i,
{
    if i >= 5 {
        Ok(stages)
    } else {
        let flag = image[dpi_enabled_offset(i as int)];
        if flag == 0 {
            dpi_scan(image, i + 1, true, stages)
        } else if flag == 1 {
            if found_disabled {
                Err(PerformanceProfileError::NonContiguousDpiStages { stage: (i + 1) as usize })
            } else {
                dpi_scan(image, i + 1, false, stages.push(stage_at(image, i as int)))
            }
        } else {
            Err(PerformanceProfileError::InvalidDpiStageFlag { stage: (i + 1) as usize, value: flag })
        }
    }
}

/// The enabled DPI stages and the active index stored in a profile image.
pub open spec fn dpi_profile_spec(image: Seq<u8>) -> Result<
    (Seq<DpiStage>, usize),
    PerformanceProfileError,
> {
    match dpi_scan(image, 0, false, seq![]) {
        Err(e) => Err(e),
        Ok(stages) => {
            let active = image[0x31] as usize;
            if stages.len() == 0 {
                Err(PerformanceProfileError::NoEnabledDpiStages)
            } else if active >= stages.len() {
                Err(
                    PerformanceProfileError::InvalidActiveDpiStage {
                        active,
                        stage_count: stages.len() as usize,
                    },
                )
            } else {
                Ok((stages, active))
            }
        },
    }
}

/// Why one DPI value cannot be stored, if it cannot.
pub open spec fn dpi_value_error(stage: int, axis: DpiAxis, dpi: u32) -> Option<
    PerformanceProfileError,
> {
    if dpi < 200 || dpi > 16000 {
        Some(PerformanceProfileError::DpiOutOfRange { stage: (stage + 1) as usize, axis, dpi })
    } else if dpi % 50 != 0 {
        Some(PerformanceProfileError::DpiNotStepAligned { stage: (stage + 1) as usize, axis, dpi })
    } else {
        None
    }
}

/// First invalid value among stages `i..`, checking X before Y.
pub open spec fn first_dpi_value_error(stages: Seq<DpiStage>, i: nat) -> Option<
    PerformanceProfileError,
>
    decreases stages.len() - i,
{
    if i >= stages.len() {
        None
    } else if dpi_value_error(i as int, DpiAxis::X, stages[i as int].x) is Some {
        dpi_value_error(i as int, DpiAxis::X, stages[i as int].x)
    } else if dpi_value_error(i as int, DpiAxis::Y, stages[i as int].y) is Some {
        dpi_value_error(i as int, DpiAxis::Y, stages[i as int].y)
    } else {
        first_dpi_value_error(stages, i + 1)
    }
}

/// Why a DPI profile cannot be stored, if it cannot.
pub open spec fn dpi_write_error(stages: Seq<DpiStage>, active: usize) -> Option<
    PerformanceProfileError,
> {
    if !(1 <= stages.len() <= 5) {
        Some(PerformanceProfileError::InvalidDpiStageCount(stages.len() as usize))
    } else if active >= stages.len() {
        Some(
            PerformanceProfileError::InvalidActiveDpiStage {
                active,
                stage_count: stages.len() as usize,
            },
        )
    } else {
        first_dpi_value_error(stages, 0)
    }
}

/// The stage whose DPI field holds byte `k`, if any.
pub open spec fn dpi_field_stage(k: int) -> Option<int> {
    if 0x19 <= k < 0x23 {
        Some((k - 0x19) / 2)
    } else if 0x25 <= k < 0x2F {
        Some((k - 0x25) / 2)
    } else if 0x32 <= k < 0x37 {
        Some(k - 0x32)
    } else if 0x69 <= k < 0x78 {
        Some((k - 0x69) / 3)
    } else {
        None
    }
}

/// High (`j == 0`) or low byte of a DPI value in 50-DPI units.
pub open spec fn dpi_unit_byte(dpi: u32, j: int) -> u8 {
    if j == 0 {
        ((dpi / 50) / 256) as u8
    } else {
        ((dpi / 50) % 256) as u8
    }
}

/// Byte `k` of the DPI field of stage `i` when it holds `stage`, or zero
/// when the stage is absent.
pub open spec fn dpi_field_byte(stages: Seq<DpiStage>, i: int, k: int) -> u8 {
    if i >= stages.len() {
        0
    } else if 0x19 <= k < 0x23 {
        dpi_unit_byte(stages[i].x, (k - 0x19) % 2)
    } else if 0x25 <= k < 0x2F {
        dpi_unit_byte(stages[i].y, (k - 0x25) % 2)
    } else if 0x32 <= k < 0x37 {
        1
    } else {
        let j = (k - 0x69) % 3;
        if j == 0 {
            stages[i].color.red
        } else if j == 1 {
            stages[i].color.green
        } else {
            stages[i].color.blue
        }
    }
}

/// Byte `k` of `image` after storing a DPI profile.
pub open spec fn dpi_patched_byte(image: Seq<u8>, stages: Seq<DpiStage>, active: usize, k: int) -> u8 {
    if k == 0x31 {
        active as u8
    } else {
        match dpi_field_stage(k) {
            Some(i) => dpi_field_byte(stages, i, k),
            None => image[k],
        }
    }
}

/// `image` after storing a DPI profile: every DPI field is rewritten and
/// every other byte is kept.
pub open spec fn dpi_patched(image: Seq<u8>, stages: Seq<DpiStage>, active: usize) -> Seq<u8> {
    Seq::new(image.len(), |k: int| dpi_patched_byte(image, stages, active, k))
}

/// The binding denoted by a four-byte record.
pub open spec fn decode_record(r0: u8, r1: u8, r2: u8, r3: u8) -> Option<ButtonBinding> {
    match (r0, r1, r2, r3) {
        (0x00, 0x00, 0x00, 0x00) => Some(ButtonBinding::Disabled),
        (0x00, usage, 0x00, 0x00) => Some(ButtonBinding::Keyboard(KeyboardUsage(usage as u16))),
        (0x02, 0xF0, 0x00, 0x00) => Some(ButtonBinding::Mouse(MouseFunction::LeftClick)),
        (0x02, 0xF1, 0x00, 0x00) => Some(ButtonBinding::Mouse(MouseFunction::MiddleClick)),
        (0x02, 0xF1, 0x00, 0x01) => Some(ButtonBinding::Mouse(MouseFunction::MiddleClick)),
        (0x02, 0xF2, 0x00, 0x00) => Some(ButtonBinding::Mouse(MouseFunction::RightClick)),
        (0x02, 0xF2, 0x00, 0x02) => Some(ButtonBinding::Mouse(MouseFunction::RightClick)),
        (0x02, 0xF3, 0x00, 0x00) => Some(ButtonBinding::Mouse(MouseFunction::ScrollDown)),
        (0x02, 0xF4, 0x00, 0x00) => Some(ButtonBinding::Mouse(MouseFunction::ScrollUp)),
        (0x02, 0xF5, 0x00, 0x00) => Some(ButtonBinding::Mouse(MouseFunction::TiltLeft)),
        (0x02, 0xF6, 0x00, 0x00) => Some(ButtonBinding::Mouse(MouseFunction::TiltRight)),
        (0x02, 0xF8, 0x00, 0x00) => Some(ButtonBinding::Mouse(MouseFunction::Back)),
        (0x02, 0xF8, 0x00, 0x03) => Some(ButtonBinding::Mouse(MouseFunction::Back)),
        (0x02, 0xF9, 0x00, 0x00) => Some(ButtonBinding::Mouse(MouseFunction::Forward)),
        (0x02, 0xF9, 0x00, 0x04) => Some(ButtonBinding::Mouse(MouseFunction::Forward)),
        (0x71, 0xF0, 0x00, 0x00) => Some(ButtonBinding::Mouse(MouseFunction::DpiToggle)),
        (0x04, 0x00, 0x00, 0xCD) => Some(ButtonBinding::Multimedia(MultimediaFunction::PlayPause)),
        (0x04, 0x00, 0x00, 0xB7) => Some(ButtonBinding::Multimedia(MultimediaFunction::Stop)),
        (0x04, 0x00, 0x00, 0xB5) => Some(ButtonBinding::Multimedia(MultimediaFunction::NextTrack)),
        (0x04, 0x00, 0x00, 0xB6) => Some(
            ButtonBinding::Multimedia(MultimediaFunction::PreviousTrack),
        ),
        (0x04, 0x00, 0x00, 0xE2) => Some(ButtonBinding::Multimedia(MultimediaFunction::MuteVolume)),
        (0x04, 0x00, 0x00, 0xE9) => Some(ButtonBinding::Multimedia(MultimediaFunction::VolumeUp)),
        (0x04, 0x00, 0x00, 0xEA) => Some(ButtonBinding::Multimedia(MultimediaFunction::VolumeDown)),
        (0x23, 0xE3, 0x2B, 0x00) => Some(ButtonBinding::WindowsShortcut(WindowsShortcut::CycleApps)),
        (0x23, 0xE2, 0x2B, 0x00) => Some(
            ButtonBinding::WindowsShortcut(WindowsShortcut::SwitchApps),
        ),
        (0x23, 0xE0, 0x1B, 0x00) => Some(ButtonBinding::WindowsShortcut(WindowsShortcut::Cut)),
        (0x23, 0xE0, 0x06, 0x00) => Some(ButtonBinding::WindowsShortcut(WindowsShortcut::Copy)),
        (0x23, 0xE0, 0x19, 0x00) => Some(ButtonBinding::WindowsShortcut(WindowsShortcut::Paste)),
        (0x23, 0xE0, 0x1D, 0x00) => Some(ButtonBinding::WindowsShortcut(WindowsShortcut::Undo)),
        _ => None,
    }
}

/// The binding stored for `control` in `image`.
pub open spec fn button_binding_spec(image: Seq<u8>, control: PulsefireRaidControl) -> Result<
    ButtonBinding,
    PerformanceProfileError,
> {
    let o = control_offset(control);
    match decode_record(image[o], image[o + 1], image[o + 2], image[o + 3]) {
        Some(binding) => Ok(binding),
        None => Err(
            PerformanceProfileError::UnknownButtonBinding {
                control,
                record: [image[o], image[o + 1], image[o + 2], image[o + 3]],
            },
        ),
    }
}

/// The four-byte record that encodes a binding.
pub open spec fn encode_record(binding: ButtonBinding) -> Result<Seq<u8>, PerformanceProfileError> {
    match binding {
        ButtonBinding::Disabled => Ok(seq![0x00u8, 0x00, 0x00, 0x00]),
        ButtonBinding::Keyboard(KeyboardUsage(usage)) => {
            if 1 <= usage <= 0xFF {
                Ok(seq![0x00u8, usage as u8, 0x00, 0x00])
            } else {
                Err(PerformanceProfileError::KeyboardUsageOutOfRange(usage))
            }
        },
        ButtonBinding::Mouse(function) => Ok(
            match function {
                MouseFunction::LeftClick => seq![0x02u8, 0xF0, 0x00, 0x00],
                MouseFunction::MiddleClick => seq![0x02u8, 0xF1, 0x00, 0x01],
                MouseFunction::RightClick => seq![0x02u8, 0xF2, 0x00, 0x02],
                MouseFunction::ScrollUp => seq![0x02u8, 0xF4, 0x00, 0x00],
                MouseFunction::ScrollDown => seq![0x02u8, 0xF3, 0x00, 0x00],
                MouseFunction::TiltLeft => seq![0x02u8, 0xF5, 0x00, 0x00],
                MouseFunction::TiltRight => seq![0x02u8, 0xF6, 0x00, 0x00],
                MouseFunction::Back => seq![0x02u8, 0xF8, 0x00, 0x03],
                MouseFunction::Forward => seq![0x02u8, 0xF9, 0x00, 0x04],
                MouseFunction::DpiToggle => seq![0x71u8, 0xF0, 0x00, 0x00],
            },
        ),
        ButtonBinding::Multimedia(function) => Ok(
            seq![
                0x04u8,
                0x00,
                0x00,
                match function {
                    MultimediaFunction::PlayPause => 0xCDu8,
                    MultimediaFunction::Stop => 0xB7u8,
                    MultimediaFunction::NextTrack => 0xB5u8,
                    MultimediaFunction::PreviousTrack => 0xB6u8,
                    MultimediaFunction::MuteVolume => 0xE2u8,
                    MultimediaFunction::VolumeUp => 0xE9u8,
                    MultimediaFunction::VolumeDown => 0xEAu8,
                },
            ],
        ),
        ButtonBinding::WindowsShortcut(shortcut) => Ok(
            match shortcut {
                WindowsShortcut::CycleApps => seq![0x23u8, 0xE3, 0x2B, 0x00],
                WindowsShortcut::SwitchApps => seq![0x23u8, 0xE2, 0x2B, 0x00],
                WindowsShortcut::Cut => seq![0x23u8, 0xE0, 0x1B, 0x00],
                WindowsShortcut::Copy => seq![0x23u8, 0xE0, 0x06, 0x00],
                WindowsShortcut::Paste => seq![0x23u8, 0xE0, 0x19, 0x00],
                WindowsShortcut::Undo => seq![0x23u8, 0xE0, 0x1D, 0x00],
            },
        ),
        ButtonBinding::Macro(_) => Err(PerformanceProfileError::UnconfirmedButtonBinding(binding)),
    }
}

/// Whether `binding` may be stored for `control`: the primary clicks take
/// only the left and right click actions.
pub open spec fn binding_allowed(control: PulsefireRaidControl, binding: ButtonBinding) -> bool {
    is_primary_click(control) ==> (binding == ButtonBinding::Mouse(MouseFunction::LeftClick)
        || binding == ButtonBinding::Mouse(MouseFunction::RightClick))
}

/// `image` with `record` written at `offset`.
pub open spec fn with_record(image: Seq<u8>, offset: int, record: Seq<u8>) -> Seq<u8> {
    image.take(offset) + record + image.skip(offset + 4)
}

/// The records of the physical left and right buttons in one layout.
pub open spec fn primary_layout_records(layout: PrimaryButtonLayout) -> (Seq<u8>, Seq<u8>) {
    match layout {
        PrimaryButtonLayout::Standard => (
            seq![0x02u8, 0xF0, 0x00, 0x00],
            seq![0x02u8, 0xF2, 0x00, 0x02],
        ),
        PrimaryButtonLayout::Swapped => (
            seq![0x02u8, 0xF2, 0x00, 0x02],
            seq![0x02u8, 0xF0, 0x00, 0x00],
        ),
    }
}

/// `image` with both primary-button records set for `layout`.
pub open spec fn with_primary_layout(image: Seq<u8>, layout: PrimaryButtonLayout) -> Seq<u8> {
    with_record(
        with_record(image, 0x7C, primary_layout_records(layout).0),
        0x80,
        primary_layout_records(layout).1,
    )
}

/// Record that binds a control to its captured runtime macro slot.
pub open spec fn macro_reference_record(slot: u8) -> Seq<u8> {
    seq![0x53u8, 0x00, 0x00, slot]
}

/// Check one DPI value against the sensor's range and step.
fn validate_dpi(stage: usize, axis: DpiAxis, dpi: u32) -> (res: Result<(), PerformanceProfileError>)
    requires
        stage < 5,
    ensures
        res matches Err(e) ==> dpi_value_error(stage as int, axis, dpi) == Some(e),
        res is Ok ==> dpi_value_error(stage as int, axis, dpi) is None,
{
    if dpi < MIN_DPI || dpi > MAX_DPI {
        Err(PerformanceProfileError::DpiOutOfRange { stage: stage + 1, axis, dpi })
    } else if dpi % DPI_UNIT != 0 {
        Err(PerformanceProfileError::DpiNotStepAligned { stage: stage + 1, axis, dpi })
    } else {
        Ok(())
    }
}

fn read_dpi(report: &[u8; 264], offset: usize) -> (dpi: u32)
    requires
        offset + 1 < 264,
    ensures
        dpi == read_be16(report@, offset as int) * 50,
{
    (report[offset] as u32 * 256 + report[offset + 1] as u32) * DPI_UNIT
}

fn write_dpi(report: &mut [u8; 264], offset: usize, dpi: u32)
    requires
        offset + 1 < 264,
        dpi <= 16000,
    ensures
        final(report)@ == old(report)@.update(offset as int, dpi_unit_byte(dpi, 0)).update(
            offset + 1,
            dpi_unit_byte(dpi, 1),
        ),
{
    let units = dpi / DPI_UNIT;
    report[offset] = (units / 256) as u8;
    report[offset + 1] = (units % 256) as u8;
}

/// Rewrite the DPI fields of stage `index`: the stage's values when the
/// profile has that many stages, zeros otherwise.
fn store_dpi_stage(report: &mut [u8; 264], index: usize, stages: &Vec<DpiStage>)
    requires
        index < 5,
        stages@.len() <= 5,
        forall|j: int|
            0 <= j < stages@.len() ==> 200 <= #[trigger] stages@[j].x <= 16000 && 200
                <= stages@[j].y <= 16000,
    ensures
        forall|k: int|
            0 <= k < 264 ==> #[trigger] final(report)@[k] == if dpi_field_stage(k) == Some(
                index as int,
            ) {
                dpi_field_byte(stages@, index as int, k)
            } else {
                old(report)@[k]
            },
{
    let offset = 0x69 + 3 * index;
    if index < stages.len() {
        let stage = stages[index];
        write_dpi(report, 0x19 + 2 * index, stage.x);
        write_dpi(report, 0x25 + 2 * index, stage.y);
        report[0x32 + index] = 0x01;
        report[offset] = stage.color.red;
        report[offset + 1] = stage.color.green;
        report[offset + 2] = stage.color.blue;
    } else {
        report[0x19 + 2 * index] = 0;
        report[0x19 + 2 * index + 1] = 0;
        report[0x25 + 2 * index] = 0;
        report[0x25 + 2 * index + 1] = 0;
        report[0x32 + index] = 0x00;
        report[offset] = 0;
        report[offset + 1] = 0;
        report[offset + 2] = 0;
    }
}

fn decode_button_binding(control: PulsefireRaidControl, record: [u8; 4]) -> (res: Result<
    ButtonBinding,
    PerformanceProfileError,
>)
    ensures
        res == (match decode_record(record[0], record[1], record[2], record[3]) {
            Some(binding) => Ok(binding),
            None => Err(PerformanceProfileError::UnknownButtonBinding { control, record }),
        }),
{
    let binding = match (record[0], record[1], record[2], record[3]) {
        (0x00, 0x00, 0x00, 0x00) => ButtonBinding::Disabled,
        (0x00, usage, 0x00, 0x00) => ButtonBinding::Keyboard(KeyboardUsage(usage as u16)),
        (0x02, 0xF0, 0x00, 0x00) => ButtonBinding::Mouse(MouseFunction::LeftClick),
        (0x02, 0xF1, 0x00, 0x00) => ButtonBinding::Mouse(MouseFunction::MiddleClick),
        (0x02, 0xF1, 0x00, 0x01) => ButtonBinding::Mouse(MouseFunction::MiddleClick),
        (0x02, 0xF2, 0x00, 0x00) => ButtonBinding::Mouse(MouseFunction::RightClick),
        (0x02, 0xF2, 0x00, 0x02) => ButtonBinding::Mouse(MouseFunction::RightClick),
        (0x02, 0xF3, 0x00, 0x00) => ButtonBinding::Mouse(MouseFunction::ScrollDown),
        (0x02, 0xF4, 0x00, 0x00) => ButtonBinding::Mouse(MouseFunction::ScrollUp),
        (0x02, 0xF5, 0x00, 0x00) => ButtonBinding::Mouse(MouseFunction::TiltLeft),
        (0x02, 0xF6, 0x00, 0x00) => ButtonBinding::Mouse(MouseFunction::TiltRight),
        (0x02, 0xF8, 0x00, 0x00) => ButtonBinding::Mouse(MouseFunction::Back),
        (0x02, 0xF8, 0x00, 0x03) => ButtonBinding::Mouse(MouseFunction::Back),
        (0x02, 0xF9, 0x00, 0x00) => ButtonBinding::Mouse(MouseFunction::Forward),
        (0x02, 0xF9, 0x00, 0x04) => ButtonBinding::Mouse(MouseFunction::Forward),
        (0x71, 0xF0, 0x00, 0x00) => ButtonBinding::Mouse(MouseFunction::DpiToggle),
        (0x04, 0x00, 0x00, 0xCD) => ButtonBinding::Multimedia(MultimediaFunction::PlayPause),
        (0x04, 0x00, 0x00, 0xB7) => ButtonBinding::Multimedia(MultimediaFunction::Stop),
        (0x04, 0x00, 0x00, 0xB5) => ButtonBinding::Multimedia(MultimediaFunction::NextTrack),
        (0x04, 0x00, 0x00, 0xB6) => ButtonBinding::Multimedia(MultimediaFunction::PreviousTrack),
        (0x04, 0x00, 0x00, 0xE2) => ButtonBinding::Multimedia(MultimediaFunction::MuteVolume),
        (0x04, 0x00, 0x00, 0xE9) => ButtonBinding::Multimedia(MultimediaFunction::VolumeUp),
        (0x04, 0x00, 0x00, 0xEA) => ButtonBinding::Multimedia(MultimediaFunction::VolumeDown),
        (0x23, 0xE3, 0x2B, 0x00) => ButtonBinding::WindowsShortcut(WindowsShortcut::CycleApps),
        (0x23, 0xE2, 0x2B, 0x00) => ButtonBinding::WindowsShortcut(WindowsShortcut::SwitchApps),
        (0x23, 0xE0, 0x1B, 0x00) => ButtonBinding::WindowsShortcut(WindowsShortcut::Cut),
        (0x23, 0xE0, 0x06, 0x00) => ButtonBinding::WindowsShortcut(WindowsShortcut::Copy),
        (0x23, 0xE0, 0x19, 0x00) => ButtonBinding::WindowsShortcut(WindowsShortcut::Paste),
        (0x23, 0xE0, 0x1D, 0x00) => ButtonBinding::WindowsShortcut(WindowsShortcut::Undo),
        _ => {
            return Err(PerformanceProfileError::UnknownButtonBinding { control, record });
        },
    };
    Ok(binding)
}

/// Encode a binding as its four-byte profile record.
pub fn encode_button_binding(binding: &ButtonBinding) -> (res: Result<
    [u8; 4],
    PerformanceProfileError,
>)
    ensures
        res matches Ok(record) ==> encode_record(*binding) == Ok::<Seq<u8>, PerformanceProfileError>(
            record@,
        ),
        res matches Err(e) ==> encode_record(*binding) == Err::<Seq<u8>, PerformanceProfileError>(
            e,
        ),
{
    let record: [u8; 4] = match binding {
        ButtonBinding::Disabled => [0x00, 0x00, 0x00, 0x00],
        ButtonBinding::Keyboard(KeyboardUsage(usage)) => {
            if 1 <= *usage && *usage <= 0xFF {
                [0x00, *usage as u8, 0x00, 0x00]
            } else {
                return Err(PerformanceProfileError::KeyboardUsageOutOfRange(*usage));
            }
        },
        ButtonBinding::Mouse(function) => match function {
            MouseFunction::LeftClick => [0x02, 0xF0, 0x00, 0x00],
            MouseFunction::MiddleClick => [0x02, 0xF1, 0x00, 0x01],
            MouseFunction::RightClick => [0x02, 0xF2, 0x00, 0x02],
            MouseFunction::ScrollUp => [0x02, 0xF4, 0x00, 0x00],
            MouseFunction::ScrollDown => [0x02, 0xF3, 0x00, 0x00],
            MouseFunction::TiltLeft => [0x02, 0xF5, 0x00, 0x00],
            MouseFunction::TiltRight => [0x02, 0xF6, 0x00, 0x00],
            MouseFunction::Back => [0x02, 0xF8, 0x00, 0x03],
            MouseFunction::Forward => [0x02, 0xF9, 0x00, 0x04],
            MouseFunction::DpiToggle => [0x71, 0xF0, 0x00, 0x00],
        },
        ButtonBinding::Multimedia(function) => [
            0x04,
            0x00,
            0x00,
            match function {
                MultimediaFunction::PlayPause => 0xCD,
                MultimediaFunction::Stop => 0xB7,
                MultimediaFunction::NextTrack => 0xB5,
                MultimediaFunction::PreviousTrack => 0xB6,
                MultimediaFunction::MuteVolume => 0xE2,
                MultimediaFunction::VolumeUp => 0xE9,
                MultimediaFunction::VolumeDown => 0xEA,
            },
        ],
        ButtonBinding::WindowsShortcut(shortcut) => match shortcut {
            WindowsShortcut::CycleApps => [0x23, 0xE3, 0x2B, 0x00],
            WindowsShortcut::SwitchApps => [0x23, 0xE2, 0x2B, 0x00],
            WindowsShortcut::Cut => [0x23, 0xE0, 0x1B, 0x00],
            WindowsShortcut::Copy => [0x23, 0xE0, 0x06, 0x00],
            WindowsShortcut::Paste => [0x23, 0xE0, 0x19, 0x00],
            WindowsShortcut::Undo => [0x23, 0xE0, 0x1D, 0x00],
        },
        ButtonBinding::Macro(_) => {
            return Err(PerformanceProfileError::UnconfirmedButtonBinding(binding.duplicate()));
        },
    };
    assert(encode_record(*binding) == Ok::<Seq<u8>, PerformanceProfileError>(record@)) by {
        assert(record@ =~= encode_record(*binding)->Ok_0);
    }
    Ok(record)
}

/// Write a four-byte record into a report.
fn write_record(report: &mut [u8; 264], offset: usize, record: [u8; 4])
    requires
        offset + 4 <= 264,
    ensures
        final(report)@ == with_record(old(report)@, offset as int, record@),
{
    report[offset] = record[0];
    report[offset + 1] = record[1];
    report[offset + 2] = record[2];
    report[offset + 3] = record[3];
    assert(report@ =~= with_record(old(report)@, offset as int, record@));
}

impl PerformanceProfile {
    /// Recognize a 264-byte profile image by its report ID, opcode and section.
    pub fn parse(report: &[u8]) -> (res: Result<Self, PerformanceProfileError>)
        ensures
            res matches Ok(profile) ==> {
                &&& profile_parse_error(report@) is None
                &&& profile@ == report@
                &&& image_kind(report@[1]) == Some(profile.spec_kind())
                &&& image_section(report@[2]) == Some(profile.spec_section())
            },
            res matches Err(e) ==> profile_parse_error(report@) == Some(e),
    {
        if report.len() != 264 {
            return Err(PerformanceProfileError::WrongLength(report.len()));
        }
        if report[0] != DIRECT_REPORT_ID {
            return Err(PerformanceProfileError::WrongReportId(report[0]));
        }
        let kind = if report[1] == PROFILE_WRITE_OPCODE {
            ProfileImageKind::HostWrite
        } else if report[1] == PROFILE_READ_RESPONSE_OPCODE {
            ProfileImageKind::DeviceReadResponse
        } else {
            return Err(PerformanceProfileError::UnsupportedOpcode(report[1]));
        };
        let section = if report[2] == ONBOARD_PROFILE_SECTION {
            ProfileSection::Onboard
        } else if report[2] == RUNTIME_PROFILE_SECTION {
            ProfileSection::Runtime
        } else {
            return Err(PerformanceProfileError::UnsupportedSection(report[2]));
        };
        let mut bytes = [0u8; 264];
        let mut i: usize = 0;
        while i < 264
            invariant
                report@.len() == 264,
                i <= 264,
                forall|j: int| 0 <= j < i ==> bytes@[j] == report@[j],
            decreases 264 - i,
        {
            bytes[i] = report[i];
            i += 1;
        }
        assert(bytes@ =~= report@);
        Ok(PerformanceProfile { report: bytes, kind, section })
    }

    pub fn kind(&self) -> (kind: ProfileImageKind)
        ensures
            kind == self.spec_kind(),
    {
        self.kind
    }

    pub fn section(&self) -> (section: ProfileSection)
        ensures
            section == self.spec_section(),
    {
        self.section
    }

    /// Decode the confirmed polling interval byte.
    pub fn polling_rate(&self) -> (res: Result<PollingRate, PerformanceProfileError>)
        ensures
            res == polling_rate_spec(self@),
    {
        let code = self.report[POLLING_INTERVAL_OFFSET];
        if code == 0x01 {
            Ok(PollingRate::Hz1000)
        } else if code == 0x02 {
            Ok(PollingRate::Hz500)
        } else if code == 0x04 {
            Ok(PollingRate::Hz250)
        } else if code == 0x08 {
            Ok(PollingRate::Hz125)
        } else {
            Err(PerformanceProfileError::UnknownPollingInterval(code))
        }
    }

    /// Patch the confirmed polling interval byte; nothing else changes.
    pub fn set_polling_rate(&mut self, polling_rate: PollingRate)
        ensures
            final(self)@ == old(self)@.update(0x18, polling_code(polling_rate)),
            final(self).spec_kind() == old(self).spec_kind(),
            final(self).spec_section() == old(self).spec_section(),
    {
        self.report[POLLING_INTERVAL_OFFSET] = match polling_rate {
            PollingRate::Hz1000 => 0x01,
            PollingRate::Hz500 => 0x02,
            PollingRate::Hz250 => 0x04,
            PollingRate::Hz125 => 0x08,
        };
    }

    /// Decode the enabled DPI stages and the active zero-based stage index.
    pub fn dpi_profile(&self) -> (res: Result<DpiProfile, PerformanceProfileError>)
        ensures
            res matches Ok(p) ==> dpi_profile_spec(self@) == Ok::<
                (Seq<DpiStage>, usize),
                PerformanceProfileError,
            >((p.stages@, p.active_stage)),
            res matches Err(e) ==> dpi_profile_spec(self@) == Err::<
                (Seq<DpiStage>, usize),
                PerformanceProfileError,
            >(e),
            res matches Ok(p) ==> 1 <= p.stages@.len() <= 5 && p.active_stage < p.stages@.len(),
    {
        let mut stages: Vec<DpiStage> = Vec::new();
        let mut found_disabled = false;
        let mut index: usize = 0;
        while index < 5
            invariant
                index <= 5,
                dpi_scan(self@, 0, false, seq![]) == dpi_scan(
                    self@,
                    index as nat,
                    found_disabled,
                    stages@,
                ),
                stages@.len() <= index,
            decreases 5 - index,
        {
            let flag = self.report[0x32 + index];
            if flag == 0x00 {
                found_disabled = true;
            } else if flag == 0x01 {
                if found_disabled {
                    return Err(PerformanceProfileError::NonContiguousDpiStages { stage: index + 1 });
                }
                let offset = 0x69 + 3 * index;
                let stage = DpiStage {
                    x: read_dpi(&self.report, 0x19 + 2 * index),
                    y: read_dpi(&self.report, 0x25 + 2 * index),
                    color: RgbColor {
                        red: self.report[offset],
                        green: self.report[offset + 1],
                        blue: self.report[offset + 2],
                    },
                };
                assert(stage == stage_at(self@, index as int));
                stages.push(stage);
            } else {
                return Err(
                    PerformanceProfileError::InvalidDpiStageFlag { stage: index + 1, value: flag },
                );
            }
            index += 1;
        }
        if stages.len() == 0 {
            return Err(PerformanceProfileError::NoEnabledDpiStages);
        }
        let active_stage = self.report[ACTIVE_DPI_STAGE_OFFSET] as usize;
        if active_stage >= stages.len() {
            return Err(
                PerformanceProfileError::InvalidActiveDpiStage {
                    active: active_stage,
                    stage_count: stages.len(),
                },
            );
        }
        Ok(DpiProfile { stages, active_stage })
    }

    /// Patch all DPI fields. Values are validated before the image changes,
    /// and every byte outside the DPI fields is preserved.
    pub fn set_dpi_profile(&mut self, dpi_profile: &DpiProfile) -> (res: Result<
        (),
        PerformanceProfileError,
    >)
        ensures
            res matches Err(e) ==> dpi_write_error(dpi_profile.stages@, dpi_profile.active_stage)
                == Some(e) && final(self)@ == old(self)@,
            res is Ok ==> dpi_write_error(dpi_profile.stages@, dpi_profile.active_stage) is None
                && final(self)@ == dpi_patched(
                old(self)@,
                dpi_profile.stages@,
                dpi_profile.active_stage,
            ),
            final(self).spec_kind() == old(self).spec_kind(),
            final(self).spec_section() == old(self).spec_section(),
    {
        let stages = &dpi_profile.stages;
        let stage_count = stages.len();
        if stage_count < 1 || stage_count > MAX_DPI_STAGES {
            return Err(PerformanceProfileError::InvalidDpiStageCount(stage_count));
        }
        if dpi_profile.active_stage >= stage_count {
            return Err(
                PerformanceProfileError::InvalidActiveDpiStage {
                    active: dpi_profile.active_stage,
                    stage_count,
                },
            );
        }
        let mut index: usize = 0;
        while index < stage_count
            invariant
                stage_count == stages@.len(),
                stages@ == dpi_profile.stages@,
                1 <= stage_count <= 5,
                dpi_profile.active_stage < stage_count,
                index <= stage_count,
                first_dpi_value_error(stages@, 0) == first_dpi_value_error(stages@, index as nat),
                forall|j: int|
                    0 <= j < index ==> 200 <= #[trigger] stages@[j].x <= 16000 && stages@[j].x % 50
                        == 0 && 200 <= stages@[j].y <= 16000 && stages@[j].y % 50 == 0,
            decreases stage_count - index,
        {
            let stage = stages[index];
            assert(stage == stages@[index as int]);
            if let Err(e) = validate_dpi(index, DpiAxis::X, stage.x) {
                assert(first_dpi_value_error(stages@, index as nat) == Some(e));
                return Err(e);
            }
            if let Err(e) = validate_dpi(index, DpiAxis::Y, stage.y) {
                assert(first_dpi_value_error(stages@, index as nat) == Some(e));
                return Err(e);
            }
            index += 1;
        }
        assert(first_dpi_value_error(stages@, index as nat) is None);
        let ghost unpatched = self.report@;
        let ghost active = dpi_profile.active_stage;
        let mut index: usize = 0;
        while index < 5
            invariant
                stage_count == stages@.len(),
                1 <= stage_count <= 5,
                index <= 5,
                forall|j: int|
                    0 <= j < stage_count ==> 200 <= #[trigger] stages@[j].x <= 16000
                        && 200 <= stages@[j].y <= 16000,
                forall|k: int|
                    0 <= k < 264 ==> #[trigger] self.report@[k] == (match dpi_field_stage(k) {
                        Some(i) => if i < index {
                            dpi_field_byte(stages@, i, k)
                        } else {
                            unpatched[k]
                        },
                        None => unpatched[k],
                    }),
                self.kind == old(self).kind,
                self.section == old(self).section,
                unpatched == old(self).report@,
            decreases 5 - index,
        {
            store_dpi_stage(&mut self.report, index, stages);
            index += 1;
        }
        self.report[ACTIVE_DPI_STAGE_OFFSET] = dpi_profile.active_stage as u8;
        assert(self.report@ =~= dpi_patched(unpatched, stages@, active));
        Ok(())
    }

    /// Decode one physical control's four-byte binding record.
    pub fn button_binding(&self, control: PulsefireRaidControl) -> (res: Result<
        ButtonBinding,
        PerformanceProfileError,
    >)
        ensures
            res == button_binding_spec(self@, control),
    {
        let offset = control.profile_offset();
        let record: [u8; 4] = [
            self.report[offset],
            self.report[offset + 1],
            self.report[offset + 2],
            self.report[offset + 3],
        ];
        decode_button_binding(control, record)
    }

    /// Whether `control` holds the exact captured Button 5 macro reference.
    pub fn has_confirmed_macro_reference(&self, control: PulsefireRaidControl) -> (found: bool)
        ensures
            found == (control == PulsefireRaidControl::Button5 && self@.subrange(0x8C, 0x90)
                == macro_reference_record(4)),
    {
        if control != PulsefireRaidControl::Button5 {
            return false;
        }
        let found = self.report[0x8C] == MACRO_REFERENCE_OPCODE && self.report[0x8D] == 0
            && self.report[0x8E] == 0 && self.report[0x8F] == 4;
        assert(found == (self@.subrange(0x8C, 0x90) == macro_reference_record(4))) by {
            if self@.subrange(0x8C, 0x90) == macro_reference_record(4) {
                assert(self@.subrange(0x8C, 0x90)[0] == self@[0x8C]);
                assert(self@.subrange(0x8C, 0x90)[1] == self@[0x8D]);
                assert(self@.subrange(0x8C, 0x90)[2] == self@[0x8E]);
                assert(self@.subrange(0x8C, 0x90)[3] == self@[0x8F]);
            }
            if found {
                assert(self@.subrange(0x8C, 0x90) =~= macro_reference_record(4));
            }
        }
        found
    }

    /// Patch one four-byte button record. The primary clicks accept only
    /// the left and right click actions; on any error nothing changes.
    pub fn set_button_binding(&mut self, control: PulsefireRaidControl, binding: &ButtonBinding) -> (res: Result<
        (),
        PerformanceProfileError,
    >)
        ensures
            !binding_allowed(control, *binding) ==> res == Err::<(), PerformanceProfileError>(
                PerformanceProfileError::ButtonBindingNotAllowed { control, binding: *binding },
            ),
            binding_allowed(control, *binding) ==> match encode_record(*binding) {
                Ok(record) => res is Ok && final(self)@ == with_record(
                    old(self)@,
                    control_offset(control),
                    record,
                ),
                Err(e) => res == Err::<(), PerformanceProfileError>(e),
            },
            res is Err ==> final(self)@ == old(self)@,
            final(self).spec_kind() == old(self).spec_kind(),
            final(self).spec_section() == old(self).spec_section(),
    {
        if control.is_primary_click() {
            let allowed = match binding {
                ButtonBinding::Mouse(MouseFunction::LeftClick) => true,
                ButtonBinding::Mouse(MouseFunction::RightClick) => true,
                _ => false,
            };
            if !allowed {
                return Err(
                    PerformanceProfileError::ButtonBindingNotAllowed {
                        control,
                        binding: binding.duplicate(),
                    },
                );
            }
        }
        let record = encode_button_binding(binding)?;
        let offset = control.profile_offset();
        write_record(&mut self.report, offset, record);
        Ok(())
    }

    /// Write both primary-button records for `layout` in one patch; the two
    /// records never hold the same click.
    pub fn set_primary_button_layout(&mut self, layout: PrimaryButtonLayout)
        ensures
            final(self)@ == with_primary_layout(old(self)@, layout),
            final(self).spec_kind() == old(self).spec_kind(),
            final(self).spec_section() == old(self).spec_section(),
    {
        let (left, right): ([u8; 4], [u8; 4]) = match layout {
            PrimaryButtonLayout::Standard => ([0x02, 0xF0, 0x00, 0x00], [0x02, 0xF2, 0x00, 0x02]),
            PrimaryButtonLayout::Swapped => ([0x02, 0xF2, 0x00, 0x02], [0x02, 0xF0, 0x00, 0x00]),
        };
        assert(left@ == primary_layout_records(layout).0);
        assert(right@ == primary_layout_records(layout).1);
        write_record(&mut self.report, 0x7C, left);
        write_record(&mut self.report, 0x80, right);
    }

    /// Store a raw four-byte record for `control`.
    pub fn store_record(&mut self, control: PulsefireRaidControl, record: [u8; 4])
        ensures
            final(self)@ == with_record(old(self)@, control_offset(control), record@),
            final(self).spec_kind() == old(self).spec_kind(),
            final(self).spec_section() == old(self).spec_section(),
    {
        let offset = control.profile_offset();
        write_record(&mut self.report, offset, record);
    }

    /// The host-write form of this image: only the opcode byte changes.
    pub fn to_write_report(&self) -> (report: [u8; 264])
        ensures
            report@ == self@.update(1, 0x01),
    {
        let mut report = self.report;
        report[1] = PROFILE_WRITE_OPCODE;
        report
    }

    pub fn as_bytes(&self) -> (bytes: &[u8; 264])
        ensures
            bytes@ == self@,
    {
        &self.report
    }
}


/// Errors of the confirmed macro report codec.
#[derive(Clone, Debug, PartialEq, Eq)]
pub enum ConfirmedMacroError {
    WrongLength(usize),
    UnconfirmedByte { offset: usize, expected: u8, actual: u8 },
    UnconfirmedEvents(Vec<KeyboardMacroEvent>),
    UnsupportedProfileSection,
}

/// Header of the captured Button 5, Play Once macro report.
pub open spec fn macro_header() -> Seq<u8> {
    seq![0x07u8, 0x05, 0x04, 0x04, 0x00, 0x00, 0x00, 0x00, 0x00, 0x01]
}

/// Byte `j` of the three-byte record of one macro event: the press flag
/// with the high timing byte, the low timing byte, and the usage.
pub open spec fn macro_event_byte(event: KeyboardMacroEvent, j: int) -> u8 {
    if j == 0 {
        ((if event.state == KeyState::Pressed {
            0x80int
        } else {
            0
        }) + event.timing_ms / 256) as u8
    } else if j == 1 {
        (event.timing_ms % 256) as u8
    } else {
        event.usage.0 as u8
    }
}

/// The macro report for `events`: header, one record per event, zero fill.
pub open spec fn macro_report(events: Seq<KeyboardMacroEvent>) -> Seq<u8> {
    Seq::new(
        264,
        |k: int|
            if k < 10 {
                macro_header()[k]
            } else if k < 10 + 3 * events.len() {
                macro_event_byte(events[(k - 10) / 3], (k - 10) % 3)
            } else {
                0u8
            },
    )
}

/// Press and release of the `A` key, each with `timing` milliseconds.
pub open spec fn keyboard_a_spec(timing: u16) -> Seq<KeyboardMacroEvent> {
    seq![
        KeyboardMacroEvent { usage: KeyboardUsage(0x04), state: KeyState::Pressed, timing_ms: timing },
        KeyboardMacroEvent { usage: KeyboardUsage(0x04), state: KeyState::Released, timing_ms: timing },
    ]
}

/// `A` then `B`, each pressed and released, with `timing` milliseconds.
pub open spec fn keyboard_ab_spec(timing: u16) -> Seq<KeyboardMacroEvent> {
    keyboard_a_spec(timing) + seq![
        KeyboardMacroEvent { usage: KeyboardUsage(0x05), state: KeyState::Pressed, timing_ms: timing },
        KeyboardMacroEvent { usage: KeyboardUsage(0x05), state: KeyState::Released, timing_ms: timing },
    ]
}

/// The event lists whose macro reports were captured, in lookup order.
pub open spec fn confirmed_event_lists() -> Seq<Seq<KeyboardMacroEvent>> {
    seq![keyboard_a_spec(20), keyboard_a_spec(300), keyboard_ab_spec(20)]
}

pub open spec fn is_confirmed_event_list(events: Seq<KeyboardMacroEvent>) -> bool {
    exists|i: int| 0 <= i < 3 && confirmed_event_lists()[i] == events
}

/// The first confirmed list whose report is `report`, if any.
pub open spec fn confirmed_report_index(report: Seq<u8>) -> Option<int> {
    if report == macro_report(confirmed_event_lists()[0]) {
        Some(0)
    } else if report == macro_report(confirmed_event_lists()[1]) {
        Some(1)
    } else if report == macro_report(confirmed_event_lists()[2]) {
        Some(2)
    } else {
        None
    }
}

/// The captured Button 5 keyboard macro, Play Once.
#[derive(Clone, Debug, PartialEq, Eq)]
pub struct ConfirmedMacro {
    report: [u8; 264],
    events: Vec<KeyboardMacroEvent>,
}

impl View for ConfirmedMacro {
    type V = Seq<u8>;

    closed spec fn view(&self) -> Seq<u8> {
        self.report@
    }
}

proof fn lemma_confirmed_bounds(events: Seq<KeyboardMacroEvent>)
    requires
        is_confirmed_event_list(events),
    ensures
        2 <= events.len() <= 4,
        forall|j: int|
            0 <= j < events.len() ==> #[trigger] events[j].timing_ms <= 300 && events[j].usage.0
                <= 5,
{
    let i = choose|i: int| 0 <= i < 3 && confirmed_event_lists()[i] == events;
    assert(i == 0 || i == 1 || i == 2);
}

/// Whether two event slices hold the same events.
fn same_events(a: &[KeyboardMacroEvent], b: &[KeyboardMacroEvent]) -> (same: bool)
    ensures
        same == (a@ == b@),
{
    if a.len() != b.len() {
        return false;
    }
    let mut i: usize = 0;
    while i < a.len()
        invariant
            a@.len() == b@.len(),
            i <= a@.len(),
            forall|j: int| 0 <= j < i ==> a@[j] == b@[j],
        decreases a.len() - i,
    {
        if a[i] != b[i] {
            return false;
        }
        i += 1;
    }
    assert(a@ =~= b@);
    true
}

/// A vector holding the events of a slice.
fn copy_events(events: &[KeyboardMacroEvent]) -> (copy: Vec<KeyboardMacroEvent>)
    ensures
        copy@ == events@,
{
    let mut copy: Vec<KeyboardMacroEvent> = Vec::new();
    let mut i: usize = 0;
    while i < events.len()
        invariant
            i <= events@.len(),
            copy@ == events@.take(i as int),
        decreases events.len() - i,
    {
        copy.push(events[i]);
        i += 1;
        assert(copy@ =~= events@.take(i as int));
    }
    assert(events@.take(i as int) =~= events@);
    copy
}

fn keyboard_a_events(timing_ms: u16) -> (events: Vec<KeyboardMacroEvent>)
    ensures
        events@ == keyboard_a_spec(timing_ms),
{
    let events = vec![
        KeyboardMacroEvent::pressed(KeyboardUsage(0x04), timing_ms),
        KeyboardMacroEvent::released(KeyboardUsage(0x04), timing_ms),
    ];
    assert(events@ =~= keyboard_a_spec(timing_ms));
    events
}

fn keyboard_ab_events(timing_ms: u16) -> (events: Vec<KeyboardMacroEvent>)
    ensures
        events@ == keyboard_ab_spec(timing_ms),
{
    let mut events = keyboard_a_events(timing_ms);
    events.push(KeyboardMacroEvent::pressed(KeyboardUsage(0x05), timing_ms));
    events.push(KeyboardMacroEvent::released(KeyboardUsage(0x05), timing_ms));
    assert(events@ =~= keyboard_ab_spec(timing_ms));
    events
}

fn confirmed_macro_event_lists() -> (lists: Vec<Vec<KeyboardMacroEvent>>)
    ensures
        lists@.len() == 3,
        forall|i: int| 0 <= i < 3 ==> #[trigger] lists@[i]@ == confirmed_event_lists()[i],
{
    let lists = vec![keyboard_a_events(20), keyboard_a_events(300), keyboard_ab_events(20)];
    lists
}

/// Write the report of a confirmed event list.
fn encode_macro_report(events: &[KeyboardMacroEvent]) -> (report: [u8; 264])
    requires
        is_confirmed_event_list(events@),
    ensures
        report@ == macro_report(events@),
{
    proof {
        lemma_confirmed_bounds(events@);
    }
    let mut report = [0u8; 264];
    report[0] = 0x07;
    report[1] = 0x05;
    report[2] = 0x04;
    report[3] = 0x04;
    report[9] = 0x01;
    let mut i: usize = 0;
    while i < events.len()
        invariant
            2 <= events@.len() <= 4,
            forall|j: int|
                0 <= j < events@.len() ==> #[trigger] events@[j].timing_ms <= 300
                    && events@[j].usage.0 <= 5,
            i <= events@.len(),
            forall|k: int|
                0 <= k < 264 ==> #[trigger] report@[k] == (if k < 10 {
                    macro_header()[k]
                } else if k < 10 + 3 * i {
                    macro_event_byte(events@[(k - 10) / 3], (k - 10) % 3)
                } else {
                    0u8
                }),
        decreases events.len() - i,
    {
        let event = events[i];
        let timing_high = (event.timing_ms / 256) as u8;
        let timing_low = (event.timing_ms % 256) as u8;
        let state: u8 = match event.state {
            KeyState::Pressed => 0x80,
            KeyState::Released => 0x00,
        };
        assert(timing_high <= 1);
        assert(state == 0x80 || state == 0);
        assert((state | timing_high) == state + timing_high) by (bit_vector)
            requires
                timing_high <= 1,
                state == 0x80u8 || state == 0u8,
        ;
        let offset = 10 + 3 * i;
        report[offset] = state | timing_high;
        report[offset + 1] = timing_low;
        report[offset + 2] = event.usage.0 as u8;
        i += 1;
    }
    assert(report@ =~= macro_report(events@));
    report
}

impl ConfirmedMacro {
    /// The events of this macro.
    pub closed spec fn spec_events(&self) -> Seq<KeyboardMacroEvent> {
        self.events@
    }

    /// Build the captured Button 5 keyboard sequence, Play Once, as a report.
    /// Only the exact captured event lists are accepted.
    pub fn button5_keyboard_once(events: &[KeyboardMacroEvent]) -> (res: Result<
        Self,
        ConfirmedMacroError,
    >)
        ensures
            res is Ok <==> is_confirmed_event_list(events@),
            res matches Ok(m) ==> m@ == macro_report(events@) && m.spec_events() == events@,
            res matches Err(e) ==> e matches ConfirmedMacroError::UnconfirmedEvents(v) && v@
                == events@,
    {
        let lists = confirmed_macro_event_lists();
        let mut i: usize = 0;
        let mut found = false;
        while i < 3
            invariant
                lists@.len() == 3,
                forall|j: int| 0 <= j < 3 ==> #[trigger] lists@[j]@ == confirmed_event_lists()[j],
                i <= 3,
                found ==> is_confirmed_event_list(events@),
                !found ==> forall|j: int| 0 <= j < i ==> confirmed_event_lists()[j] != events@,
            decreases 3 - i,
        {
            if same_events(lists[i].as_slice(), events) {
                found = true;
            }
            i += 1;
        }
        if !found {
            return Err(ConfirmedMacroError::UnconfirmedEvents(copy_events(events)));
        }
        let report = encode_macro_report(events);
        Ok(ConfirmedMacro { report, events: copy_events(events) })
    }

    /// Recognize exactly one of the captured macro reports. Any other
    /// 264-byte report is rejected at its first byte that differs from the
    /// captured `A` press/release report with 20 ms timing.
    pub fn parse(report: &[u8]) -> (res: Result<Self, ConfirmedMacroError>)
        ensures
            report@.len() != 264 ==> res == Err::<Self, ConfirmedMacroError>(
                ConfirmedMacroError::WrongLength(report@.len() as usize),
            ),
            report@.len() == 264 ==> match confirmed_report_index(report@) {
                Some(i) => res matches Ok(m) && m@ == report@ && m.spec_events()
                    == confirmed_event_lists()[i],
                None => res matches Err(e) && e matches ConfirmedMacroError::UnconfirmedByte {
                    offset,
                    expected,
                    actual,
                } && offset < 264 && actual == report@[offset as int] && expected == macro_report(
                    confirmed_event_lists()[0],
                )[offset as int] && actual != expected && forall|j: int|
                    0 <= j < offset ==> report@[j] == macro_report(confirmed_event_lists()[0])[j],
            },
    {
        if report.len() != 264 {
            return Err(ConfirmedMacroError::WrongLength(report.len()));
        }
        let lists = confirmed_macro_event_lists();
        let mut i: usize = 0;
        while i < 3
            invariant
                report@.len() == 264,
                lists@.len() == 3,
                forall|j: int| 0 <= j < 3 ==> #[trigger] lists@[j]@ == confirmed_event_lists()[j],
                i <= 3,
                forall|j: int|
                    0 <= j < i ==> report@ != macro_report(#[trigger] confirmed_event_lists()[j]),
            decreases 3 - i,
        {
            proof {
                assert(is_confirmed_event_list(lists@[i as int]@));
            }
            let expected = encode_macro_report(lists[i].as_slice());
            let mut same = true;
            let mut k: usize = 0;
            while k < 264
                invariant
                    report@.len() == 264,
                    k <= 264,
                    same == forall|j: int| 0 <= j < k ==> report@[j] == expected@[j],
                decreases 264 - k,
            {
                if report[k] != expected[k] {
                    same = false;
                }
                k += 1;
            }
            if same {
                assert(report@ =~= expected@);
                let events = copy_events(lists[i].as_slice());
                let mut bytes = [0u8; 264];
                let mut k: usize = 0;
                while k < 264
                    invariant
                        report@.len() == 264,
                        k <= 264,
                        forall|j: int| 0 <= j < k ==> bytes@[j] == report@[j],
                    decreases 264 - k,
                {
                    bytes[k] = report[k];
                    k += 1;
                }
                assert(bytes@ =~= report@);
                return Ok(ConfirmedMacro { report: bytes, events });
            }
            assert(report@ != expected@);
            i += 1;
        }
        assert(report@ != macro_report(confirmed_event_lists()[0]));
        assert(report@ != macro_report(confirmed_event_lists()[1]));
        assert(report@ != macro_report(confirmed_event_lists()[2]));
        assert(confirmed_report_index(report@) is None);
        let reference = encode_macro_report(lists[0].as_slice());
        let mut k: usize = 0;
        while k < 264
            invariant
                report@.len() == 264,
                reference@ == macro_report(confirmed_event_lists()[0]),
                report@ != reference@,
                confirmed_report_index(report@) is None,
                k <= 264,
                forall|j: int| 0 <= j < k ==> report@[j] == reference@[j],
            decreases 264 - k,
        {
            if report[k] != reference[k] {
                return Err(
                    ConfirmedMacroError::UnconfirmedByte {
                        offset: k,
                        expected: reference[k],
                        actual: report[k],
                    },
                );
            }
            k += 1;
        }
        assert(report@ =~= reference@);
        Err(ConfirmedMacroError::WrongLength(264))
    }

    pub fn control(&self) -> (control: PulsefireRaidControl)
        ensures
            control == PulsefireRaidControl::Button5,
    {
        PulsefireRaidControl::Button5
    }

    pub fn events(&self) -> (events: &[KeyboardMacroEvent])
        ensures
            events@ == self.spec_events(),
    {
        self.events.as_slice()
    }

    pub fn playback(&self) -> (playback: MacroPlayback)
        ensures
            playback == MacroPlayback::Once,
    {
        MacroPlayback::Once
    }

    /// Store the captured macro reference in the Button 5 record of a
    /// runtime profile image; onboard images are refused unchanged.
    pub fn apply_to_profile(&self, profile: &mut PerformanceProfile) -> (res: Result<
        (),
        ConfirmedMacroError,
    >)
        ensures
            old(profile).spec_section() != ProfileSection::Runtime ==> res == Err::<
                (),
                ConfirmedMacroError,
            >(ConfirmedMacroError::UnsupportedProfileSection) && final(profile)@ == old(profile)@,
            old(profile).spec_section() == ProfileSection::Runtime ==> res is Ok && final(profile)@
                == with_record(old(profile)@, 0x8C, macro_reference_record(4)),
            final(profile).spec_kind() == old(profile).spec_kind(),
            final(profile).spec_section() == old(profile).spec_section(),
    {
        if profile.section != ProfileSection::Runtime {
            return Err(ConfirmedMacroError::UnsupportedProfileSection);
        }
        let offset = self.control().profile_offset();
        let record: [u8; 4] = [MACRO_REFERENCE_OPCODE, 0x00, 0x00, 0x04];
        assert(record@ =~= macro_reference_record(4));
        write_record(&mut profile.report, offset, record);
        Ok(())
    }

    pub fn is_bound_in(&self, profile: &PerformanceProfile) -> (bound: bool)
        ensures
            bound == (profile@.subrange(0x8C, 0x90) == macro_reference_record(4)),
    {
        profile.has_confirmed_macro_reference(self.control())
    }

    pub fn as_bytes(&self) -> (bytes: &[u8; 264])
        ensures
            bytes@ == self@,
    {
        &self.report
    }
}

/// The volatile two-LED direct color report.
pub open spec fn direct_rgb_report(wheel: RgbColor, logo: RgbColor) -> Seq<u8> {
    Seq::new(
        264,
        |k: int|
            if k == 0 {
                0x07u8
            } else if k == 1 {
                0x0Au8
            } else if k == 2 {
                wheel.red
            } else if k == 3 {
                wheel.green
            } else if k == 4 {
                wheel.blue
            } else if k == 5 {
                logo.red
            } else if k == 6 {
                logo.green
            } else if k == 7 {
                logo.blue
            } else if k == 8 {
                0xA0u8
            } else {
                0u8
            },
    )
}

/// A zero-filled report that starts with `prefix`.
pub open spec fn zero_filled(prefix: Seq<u8>) -> Seq<u8> {
    Seq::new(264, |k: int| if k < prefix.len() { prefix[k] } else { 0u8 })
}

/// Encode the volatile two-LED direct RGB feature report. It writes no
/// onboard memory and must be resent to keep the color.
pub fn encode_direct_rgb(wheel: RgbColor, logo: RgbColor) -> (report: [u8; 264])
    ensures
        report@ == direct_rgb_report(wheel, logo),
{
    let mut report = [0u8; 264];
    report[0] = DIRECT_REPORT_ID;
    report[1] = DIRECT_START;
    report[2] = wheel.red;
    report[3] = wheel.green;
    report[4] = wheel.blue;
    report[5] = logo.red;
    report[6] = logo.green;
    report[7] = logo.blue;
    report[8] = DIRECT_END;
    assert(report@ =~= direct_rgb_report(wheel, logo));
    report
}

/// The fixed runtime-profile access prelude `07 03 04 64`, zero filled.
pub fn encode_runtime_profile_read_prelude() -> (report: [u8; 264])
    ensures
        report@ == zero_filled(seq![0x07u8, 0x03, 0x04, 0x64]),
{
    let mut report = [0u8; 264];
    report[0] = DIRECT_REPORT_ID;
    report[1] = PROFILE_ACCESS_OPCODE;
    report[2] = RUNTIME_PROFILE_SECTION;
    report[3] = PROFILE_ACCESS_TRAILER;
    assert(report@ =~= zero_filled(seq![0x07u8, 0x03, 0x04, 0x64]));
    report
}

/// The fixed feature-report request `07 81`, zero filled.
pub fn encode_profile_read_request() -> (report: [u8; 264])
    ensures
        report@ == zero_filled(seq![0x07u8, 0x81]),
{
    let mut report = [0u8; 264];
    report[0] = DIRECT_REPORT_ID;
    report[1] = PROFILE_READ_RESPONSE_OPCODE;
    assert(report@ =~= zero_filled(seq![0x07u8, 0x81]));
    report
}

/// The fixed onboard-profile access prelude `07 03 01 64`.
pub open spec fn onboard_prelude_report() -> Seq<u8> {
    zero_filled(seq![0x07u8, 0x03, 0x01, 0x64])
}

/// Select the onboard profile section before it is read and written.
pub fn encode_onboard_profile_read_prelude() -> (report: [u8; 264])
    ensures
        report@ == onboard_prelude_report(),
{
    let mut report = [0u8; 264];
    report[0] = DIRECT_REPORT_ID;
    report[1] = PROFILE_ACCESS_OPCODE;
    report[2] = ONBOARD_PROFILE_SECTION;
    report[3] = PROFILE_ACCESS_TRAILER;
    assert(report@ =~= onboard_prelude_report());
    report
}

/// The indexed `07 18 01 00` lighting report of an onboard save: index
/// `index` at offset `0x04`; report 0 carries the wheel color at
/// `0x08..0x0A` and the logo color at `0x0B..0x0D`; every other byte is zero.
pub open spec fn onboard_lighting_report(index: u8, wheel: RgbColor, logo: RgbColor) -> Seq<u8> {
    Seq::new(
        264,
        |k: int|
            if k == 0 {
                0x07u8
            } else if k == 1 {
                0x18u8
            } else if k == 2 {
                0x01u8
            } else if k == 4 {
                index
            } else if index == 0 && 8 <= k < 14 {
                seq![wheel.red, wheel.green, wheel.blue, logo.red, logo.green, logo.blue][k - 8]
            } else {
                0u8
            },
    )
}

fn onboard_lighting(index: u8, wheel: RgbColor, logo: RgbColor) -> (report: [u8; 264])
    ensures
        report@ == onboard_lighting_report(index, wheel, logo),
{
    let mut report = [0u8; 264];
    report[0] = DIRECT_REPORT_ID;
    report[1] = 0x18;
    report[2] = ONBOARD_PROFILE_SECTION;
    report[4] = index;
    if index == 0 {
        report[8] = wheel.red;
        report[9] = wheel.green;
        report[10] = wheel.blue;
        report[11] = logo.red;
        report[12] = logo.green;
        report[13] = logo.blue;
    }
    assert(report@ =~= onboard_lighting_report(index, wheel, logo));
    report
}

/// The three indexed static-lighting reports of an onboard save, in order.
/// They carry the Solid wheel and logo colors, wheel first.
pub fn encode_onboard_static_lighting_reports(wheel: RgbColor, logo: RgbColor) -> (reports: [[u8; 264]; 3])
    ensures
        reports@.len() == 3,
        forall|i: int| 0 <= i < 3 ==> #[trigger] reports@[i]@ == onboard_lighting_report(i as u8, wheel, logo),
{
    let reports = [onboard_lighting(0, wheel, logo), onboard_lighting(1, wheel, logo), onboard_lighting(2, wheel, logo)];
    assert(reports@[0]@ == onboard_lighting_report(0, wheel, logo));
    assert(reports@[1]@ == onboard_lighting_report(1, wheel, logo));
    assert(reports@[2]@ == onboard_lighting_report(2, wheel, logo));
    reports
}

/// The bytes an onboard save copies from the runtime profile: the polling
/// interval, the active DPI stage, every DPI field and the 11 button records.
pub open spec fn is_confirmed_setting(k: int) -> bool {
    ||| k == 0x18
    ||| k == 0x31
    ||| dpi_field_stage(k) is Some
    ||| 0x7C <= k < 0xA8
}

/// `onboard` with every confirmed setting taken from `runtime` and every
/// other byte kept.
pub open spec fn confirmed_settings_copied(onboard: Seq<u8>, runtime: Seq<u8>) -> Seq<u8> {
    Seq::new(onboard.len(), |k: int| if is_confirmed_setting(k) { runtime[k] } else { onboard[k] })
}

/// The controls in the order of their records.
pub open spec fn record_order() -> Seq<PulsefireRaidControl> {
    seq![
        PulsefireRaidControl::LeftClick,
        PulsefireRaidControl::RightClick,
        PulsefireRaidControl::MiddleClick,
        PulsefireRaidControl::Button4,
        PulsefireRaidControl::Button5,
        PulsefireRaidControl::Button7,
        PulsefireRaidControl::Button6,
        PulsefireRaidControl::Button8,
        PulsefireRaidControl::Dpi,
        PulsefireRaidControl::WheelTiltLeft,
        PulsefireRaidControl::WheelTiltRight,
    ]
}

/// Why the record of `control` cannot be saved onboard, if it cannot: the
/// Button 5 macro reference can; the Button 4 macro reference cannot; any
/// other record must decode to a binding.
pub open spec fn onboard_record_error(image: Seq<u8>, control: PulsefireRaidControl) -> Option<
    PerformanceProfileError,
> {
    let o = control_offset(control);
    let record = image.subrange(o, o + 4);
    if control == PulsefireRaidControl::Button5 && record == macro_reference_record(4) {
        None
    } else if control == PulsefireRaidControl::Button4 && record == macro_reference_record(3) {
        Some(PerformanceProfileError::UnconfirmedOnboardMacroControl(control))
    } else {
        match button_binding_spec(image, control) {
            Ok(_) => None,
            Err(e) => Some(e),
        }
    }
}

/// The first record error from control `i` on, in record order.
pub open spec fn first_onboard_record_error(image: Seq<u8>, i: nat) -> Option<PerformanceProfileError>
    decreases 11 - i,
{
    if i >= 11 {
        None
    } else {
        match onboard_record_error(image, record_order()[i as int]) {
            Some(e) => Some(e),
            None => first_onboard_record_error(image, i + 1),
        }
    }
}

/// Why a runtime image cannot be the source of an onboard save, if it
/// cannot: its polling interval, then its DPI stages, then its records.
pub open spec fn confirmed_runtime_error(image: Seq<u8>) -> Option<PerformanceProfileError> {
    if polling_rate_spec(image) is Err {
        Some(polling_rate_spec(image)->Err_0)
    } else if dpi_profile_spec(image) is Err {
        Some(dpi_profile_spec(image)->Err_0)
    } else {
        first_onboard_record_error(image, 0)
    }
}

impl PerformanceProfile {
    /// Check every confirmed setting before it is saved onboard.
    pub fn validate_confirmed_runtime_settings(&self) -> (res: Result<(), PerformanceProfileError>)
        ensures
            match confirmed_runtime_error(self@) {
                Some(e) => res == Err::<(), PerformanceProfileError>(e),
                None => res is Ok,
            },
    {
        if let Err(e) = self.polling_rate() {
            return Err(e);
        }
        if let Err(e) = self.dpi_profile() {
            return Err(e);
        }
        let controls = PulsefireRaidControl::all();
        let mut i: usize = 0;
        while i < 11
            invariant
                controls@ == record_order(),
                i <= 11,
                self@.len() == 264,
                first_onboard_record_error(self@, 0) == first_onboard_record_error(self@, i as nat),
                polling_rate_spec(self@) is Ok,
                dpi_profile_spec(self@) is Ok,
            decreases 11 - i,
        {
            let control = controls[i];
            assert(control == record_order()[i as int]);
            assert(first_onboard_record_error(self@, i as nat) == match onboard_record_error(self@, control) {
                Some(e) => Some(e),
                None => first_onboard_record_error(self@, (i + 1) as nat),
            });
            let offset = control.profile_offset();
            let is_macro = self.report[offset] == MACRO_REFERENCE_OPCODE && self.report[offset + 1] == 0
                && self.report[offset + 2] == 0;
            let ghost record = self@.subrange(offset as int, offset as int + 4);
            assert(record[0] == self@[offset as int] && record[1] == self@[offset + 1] && record[2] == self@[offset + 2]
                && record[3] == self@[offset + 3]);
            if is_macro && control == PulsefireRaidControl::Button5 && self.report[offset + 3] == 4 {
                assert(record =~= macro_reference_record(4));
            } else if is_macro && control == PulsefireRaidControl::Button4 && self.report[offset + 3] == 3 {
                assert(record =~= macro_reference_record(3));
                return Err(PerformanceProfileError::UnconfirmedOnboardMacroControl(control));
            } else {
                if let Err(e) = self.button_binding(control) {
                    return Err(e);
                }
            }
            i += 1;
        }
        Ok(())
    }

    /// Copy the confirmed polling, DPI and button-record bytes of a valid
    /// runtime profile into this one; every other byte is kept. An invalid
    /// source changes nothing.
    pub fn copy_confirmed_runtime_settings_from(&mut self, runtime: &PerformanceProfile) -> (res: Result<
        (),
        PerformanceProfileError,
    >)
        ensures
            match confirmed_runtime_error(runtime@) {
                Some(e) => res == Err::<(), PerformanceProfileError>(e) && final(self)@ == old(self)@,
                None => res is Ok && final(self)@ == confirmed_settings_copied(old(self)@, runtime@),
            },
            final(self).spec_kind() == old(self).spec_kind(),
            final(self).spec_section() == old(self).spec_section(),
    {
        if let Err(e) = runtime.validate_confirmed_runtime_settings() {
            return Err(e);
        }
        let mut k: usize = 0;
        while k < 264
            invariant
                k <= 264,
                self@.len() == 264,
                runtime@.len() == 264,
                old(self)@.len() == 264,
                self.kind == old(self).kind,
                self.section == old(self).section,
                forall|j: int| 0 <= j < k ==> self@[j] == (if is_confirmed_setting(j) { runtime@[j] } else { old(self)@[j] }),
                forall|j: int| k <= j < 264 ==> self@[j] == old(self)@[j],
            decreases 264 - k,
        {
            let confirmed = k == 0x18 || k == 0x31 || (0x19 <= k && k < 0x23) || (0x25 <= k && k < 0x2F)
                || (0x32 <= k && k < 0x37) || (0x69 <= k && k < 0x78) || (0x7C <= k && k < 0xA8);
            assert(confirmed == is_confirmed_setting(k as int));
            if confirmed {
                self.report[k] = runtime.report[k];
            }
            k += 1;
        }
        assert(self@ =~= confirmed_settings_copied(old(self)@, runtime@));
        Ok(())
    }
}

} // verus!

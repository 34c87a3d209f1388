//! The Pulsefire Raid driver: validated runtime assignments, the
//! read-patch-write transactions on the runtime profile, and the
//! acknowledged onboard save.
//!
//! Every runtime transaction reads the runtime profile with the captured
//! request sequence, patches it with the verified profile codec, and writes
//! it back with the host-write opcode. The onboard save reads the runtime
//! profile, checks it, reads the onboard profile, copies the confirmed
//! settings into it and writes it, each report acknowledged on a second
//! HID interface. Waits between reports are requested from the caller in
//! milliseconds.
use vstd::prelude::*;
use crate::button::{
    normalize_key, normalize_key_name, ButtonBinding, KeyboardUsage, MacroDefinition, MacroEvent, MacroEventView, MacroPlayback, PrimaryButtonLayout,
    WindowsShortcut, key_usage_from_name,
};
use crate::capability::{validate_dpi_spec, DpiValidationError, PollingRate};
use crate::color::RgbColor;
use crate::hid::{HidError, HidTransport};
use crate::performance::{DpiProfile, DpiStage};
use crate::pulsefire_raid::{
    confirmed_runtime_error, confirmed_settings_copied, encode_onboard_profile_read_prelude,
    encode_onboard_static_lighting_reports, macro_reference_record, onboard_lighting_report, onboard_prelude_report,
    polling_rate_spec, control_offset, dpi_patched, dpi_profile_spec, encode_direct_rgb, image_kind, image_section, encode_profile_read_request,
    encode_record, encode_runtime_profile_read_prelude, polling_code, profile_parse_error, with_primary_layout, with_record,
    zero_filled, PerformanceProfile, PerformanceProfileError, ProfileImageKind, ProfileSection,
    PulsefireRaidControl,
};
use crate::raid_macro::{
    is_supported_keyboard_usage, is_supported_runtime_keyboard_usage, timeline_error,
    PulsefireRaidMacro, PulsefireRaidMacroError, PulsefireRaidMacroEvent, PulsefireRaidMacroInput,
    PulsefireRaidMacroMouseButton, PulsefireRaidMacroState,
};
use crate::registry::pulsefire_raid_dpi;
use crate::text::chars_eq_str;

verus! {

/// Wait after the runtime-profile access prelude, in milliseconds.
pub const PROFILE_PRELUDE_DELAY_MS: u64 = 65;

/// Wait after the profile read request, in milliseconds.
pub const PROFILE_READ_DELAY_MS: u64 = 110;

/// Wait after a direct color report, in milliseconds.
pub const DIRECT_RGB_DELAY_MS: u64 = 10;

/// Wait after the onboard profile write before the runtime section is
/// selected again, in milliseconds.
pub const ONBOARD_COMMIT_DELAY_MS: u64 = 1000;

/// How long an acknowledgement read may wait, in milliseconds.
pub const SAVE_ACK_TIMEOUT_MS: i32 = 500;

#[derive(Debug)]
pub enum PulsefireRaidError {
    WrongInterface(i32),
    ShortFeatureWrite { expected: usize, actual: usize },
    WrongProfileResponseLength(usize),
    WrongProfileResponse { kind: ProfileImageKind, section: ProfileSection },
    WrongSaveAcknowledgementLength { opcode: u8, actual: usize },
    UnexpectedSaveAcknowledgement { opcode: u8, actual: [u8; 8] },
    MissingOnboardMacroDefinition,
    UnexpectedOnboardMacroDefinition,
    WrongAcknowledgementInterface(i32),
    DpiStageNotFound { stage: usize, stage_count: usize },
    EmptyDpiStageUpdate,
    TooManyDpiStages(u8),
    CannotRemoveOnlyDpiStage,
    UnconfirmedRuntimeButtonBinding { control: PulsefireRaidControl, binding: ButtonBinding },
    UnconfirmedMacroControl(PulsefireRaidControl),
    UnsupportedMacroPlayback(MacroPlayback),
    UnknownMacroKey(String),
    UnknownMacroMouseButton(String),
    InvalidMacro(PulsefireRaidMacroError),
    InvalidDpi(DpiValidationError),
    InvalidProfile(PerformanceProfileError),
    Transport(HidError),
}

/// Confirmed settings included in one completed onboard save transaction.
#[derive(Clone, Debug, PartialEq, Eq)]
pub struct PulsefireRaidOnboardSaveResult {
    pub polling_rate: PollingRate,
    pub dpi_profile: DpiProfile,
    pub macro_saved: bool,
}

/// Controls whose ordinary records were captured on more than one control.
pub open spec fn is_general_control(control: PulsefireRaidControl) -> bool {
    !(control == PulsefireRaidControl::LeftClick || control == PulsefireRaidControl::RightClick)
}

/// Bindings whose records are capture-backed on every general control.
pub open spec fn is_portable_binding(binding: ButtonBinding) -> bool {
    match binding {
        ButtonBinding::Disabled => true,
        ButtonBinding::Mouse(_) => true,
        ButtonBinding::Multimedia(_) => true,
        ButtonBinding::WindowsShortcut(_) => true,
        ButtonBinding::Keyboard(usage) => is_supported_keyboard_usage(usage),
        ButtonBinding::Macro(_) => false,
    }
}

#[derive(Clone, Debug, PartialEq, Eq)]
enum PulsefireRaidRuntimeAction {
    Ordinary(ButtonBinding),
    Macro(MacroDefinition),
}

/// One validated, capture-backed runtime button assignment. Its fields are
/// private, so every assignment has passed the validation below.
#[derive(Clone, Debug, PartialEq, Eq)]
pub struct PulsefireRaidRuntimeAssignment {
    control: PulsefireRaidControl,
    action: PulsefireRaidRuntimeAction,
}

/// The mouse button a macro file names, compared as key names are.
pub open spec fn mouse_button_from_name(name: Seq<char>) -> Option<PulsefireRaidMacroMouseButton> {
    if name == "left"@ {
        Some(PulsefireRaidMacroMouseButton::Left)
    } else if name == "right"@ {
        Some(PulsefireRaidMacroMouseButton::Right)
    } else if name == "middle"@ || name == "wheel"@ {
        Some(PulsefireRaidMacroMouseButton::Middle)
    } else {
        None
    }
}

/// The device event for a portable event, when its key or button is known.
pub open spec fn device_event(e: MacroEventView) -> Option<PulsefireRaidMacroEvent> {
    match e {
        MacroEventView::KeyDown { key, delay_ms } => match key_usage_from_name(normalize_key_name(key)) {
            Some(u) => Some(PulsefireRaidMacroEvent {
                input: PulsefireRaidMacroInput::Keyboard(KeyboardUsage(u)),
                state: PulsefireRaidMacroState::Pressed,
                delay_ms,
            }),
            None => None,
        },
        MacroEventView::KeyUp { key, delay_ms } => match key_usage_from_name(normalize_key_name(key)) {
            Some(u) => Some(PulsefireRaidMacroEvent {
                input: PulsefireRaidMacroInput::Keyboard(KeyboardUsage(u)),
                state: PulsefireRaidMacroState::Released,
                delay_ms,
            }),
            None => None,
        },
        MacroEventView::MouseButtonDown { button, delay_ms } => match mouse_button_from_name(normalize_key_name(button)) {
            Some(b) => Some(PulsefireRaidMacroEvent {
                input: PulsefireRaidMacroInput::MouseButton(b),
                state: PulsefireRaidMacroState::Pressed,
                delay_ms,
            }),
            None => None,
        },
        MacroEventView::MouseButtonUp { button, delay_ms } => match mouse_button_from_name(normalize_key_name(button)) {
            Some(b) => Some(PulsefireRaidMacroEvent {
                input: PulsefireRaidMacroInput::MouseButton(b),
                state: PulsefireRaidMacroState::Released,
                delay_ms,
            }),
            None => None,
        },
    }
}

/// Whether `err` is the error for a portable event whose key or button is
/// unknown: it names the text as written.
pub open spec fn is_unknown_input_error(e: MacroEventView, err: PulsefireRaidError) -> bool {
    match e {
        MacroEventView::KeyDown { key, .. } => err matches PulsefireRaidError::UnknownMacroKey(t) && t@ == key,
        MacroEventView::KeyUp { key, .. } => err matches PulsefireRaidError::UnknownMacroKey(t) && t@ == key,
        MacroEventView::MouseButtonDown { button, .. } => err matches PulsefireRaidError::UnknownMacroMouseButton(t) && t@ == button,
        MacroEventView::MouseButtonUp { button, .. } => err matches PulsefireRaidError::UnknownMacroMouseButton(t) && t@ == button,
    }
}

pub open spec fn definition_events(definition: MacroDefinition) -> Seq<MacroEventView> {
    definition.events@.map_values(|e: MacroEvent| e@)
}

/// The device timeline of a definition whose events are all known.
pub open spec fn device_timeline(events: Seq<MacroEventView>) -> Seq<PulsefireRaidMacroEvent> {
    events.map_values(|e: MacroEventView| device_event(e)->Some_0)
}

pub open spec fn all_events_known(events: Seq<MacroEventView>) -> bool {
    forall|i: int| 0 <= i < events.len() ==> device_event(#[trigger] events[i]) is Some
}

/// Whether `err` is the error of encoding `definition` for `control`.
pub open spec fn is_definition_error(control: PulsefireRaidControl, definition: MacroDefinition, err: PulsefireRaidError) -> bool {
    let events = definition_events(definition);
    if definition.playback != MacroPlayback::Once {
        err == PulsefireRaidError::UnsupportedMacroPlayback(definition.playback)
    } else if !all_events_known(events) {
        exists|j: int|
            0 <= j < events.len() && (forall|i: int| 0 <= i < j ==> device_event(#[trigger] events[i]) is Some)
                && device_event(events[j]) is None && is_unknown_input_error(events[j], err)
    } else {
        timeline_error(control, device_timeline(events)) matches Some(e) && err == PulsefireRaidError::InvalidMacro(e)
    }
}

/// Whether `definition` can be stored for `control`.
pub open spec fn definition_encodable(control: PulsefireRaidControl, definition: MacroDefinition) -> bool {
    &&& definition.playback == MacroPlayback::Once
    &&& all_events_known(definition_events(definition))
    &&& timeline_error(control, device_timeline(definition_events(definition))) is None
}

fn copy_text(text: &String) -> (out: String)
    ensures
        out@ == text@,
{
    text.clone()
}

fn parse_macro_key(key: &String) -> (res: Result<KeyboardUsage, PulsefireRaidError>)
    ensures
        match key_usage_from_name(normalize_key_name(key@)) {
            Some(u) => res matches Ok(k) && k == KeyboardUsage(u),
            None => res matches Err(PulsefireRaidError::UnknownMacroKey(t)) && t@ == key@,
        },
{
    match KeyboardUsage::parse(key.as_str()) {
        Ok(usage) => Ok(usage),
        Err(_) => Err(PulsefireRaidError::UnknownMacroKey(copy_text(key))),
    }
}

fn parse_macro_mouse_button(button: &String) -> (res: Result<PulsefireRaidMacroMouseButton, PulsefireRaidError>)
    ensures
        match mouse_button_from_name(normalize_key_name(button@)) {
            Some(b) => res matches Ok(x) && x == b,
            None => res matches Err(PulsefireRaidError::UnknownMacroMouseButton(t)) && t@ == button@,
        },
{
    let name = normalize_key(button.as_str());
    if chars_eq_str(&name, "left") {
        Ok(PulsefireRaidMacroMouseButton::Left)
    } else if chars_eq_str(&name, "right") {
        Ok(PulsefireRaidMacroMouseButton::Right)
    } else if chars_eq_str(&name, "middle") || chars_eq_str(&name, "wheel") {
        Ok(PulsefireRaidMacroMouseButton::Middle)
    } else {
        Err(PulsefireRaidError::UnknownMacroMouseButton(copy_text(button)))
    }
}

fn encode_macro_event(event: &MacroEvent) -> (res: Result<PulsefireRaidMacroEvent, PulsefireRaidError>)
    ensures
        match device_event(event@) {
            Some(d) => res matches Ok(x) && x == d,
            None => res matches Err(err) && is_unknown_input_error(event@, err),
        },
{
    match event {
        MacroEvent::KeyDown { key, delay_ms } => {
            let usage = match parse_macro_key(key) {
                Ok(u) => u,
                Err(e) => return Err(e),
            };
            Ok(PulsefireRaidMacroEvent::new(PulsefireRaidMacroInput::Keyboard(usage), PulsefireRaidMacroState::Pressed, *delay_ms))
        },
        MacroEvent::KeyUp { key, delay_ms } => {
            let usage = match parse_macro_key(key) {
                Ok(u) => u,
                Err(e) => return Err(e),
            };
            Ok(PulsefireRaidMacroEvent::new(PulsefireRaidMacroInput::Keyboard(usage), PulsefireRaidMacroState::Released, *delay_ms))
        },
        MacroEvent::MouseButtonDown { button, delay_ms } => {
            let b = match parse_macro_mouse_button(button) {
                Ok(b) => b,
                Err(e) => return Err(e),
            };
            Ok(PulsefireRaidMacroEvent::new(PulsefireRaidMacroInput::MouseButton(b), PulsefireRaidMacroState::Pressed, *delay_ms))
        },
        MacroEvent::MouseButtonUp { button, delay_ms } => {
            let b = match parse_macro_mouse_button(button) {
                Ok(b) => b,
                Err(e) => return Err(e),
            };
            Ok(PulsefireRaidMacroEvent::new(PulsefireRaidMacroInput::MouseButton(b), PulsefireRaidMacroState::Released, *delay_ms))
        },
    }
}

/// Encode a portable macro for a runtime control: Play Once only, every key
/// and button known, and a timeline the device accepts.
fn encode_macro_definition(control: PulsefireRaidControl, definition: &MacroDefinition) -> (res: Result<
    PulsefireRaidMacro,
    PulsefireRaidError,
>)
    ensures
        definition_encodable(control, *definition) ==> (res matches Ok(m) && m.spec_control() == control
            && m@ == crate::raid_macro::timeline_report(
            crate::raid_macro::macro_slot(control)->Some_0,
            device_timeline(definition_events(*definition)),
        )),
        !definition_encodable(control, *definition) ==> (res matches Err(err) && is_definition_error(
            control,
            *definition,
            err,
        )),
{
    if definition.playback != MacroPlayback::Once {
        return Err(PulsefireRaidError::UnsupportedMacroPlayback(definition.playback));
    }
    let ghost views = definition_events(*definition);
    let mut events: Vec<PulsefireRaidMacroEvent> = Vec::new();
    let mut i: usize = 0;
    while i < definition.events.len()
        invariant
            views == definition_events(*definition),
            definition.playback == MacroPlayback::Once,
            i <= definition.events@.len(),
            events@.len() == i,
            forall|j: int| 0 <= j < i ==> device_event(#[trigger] views[j]) is Some,
            forall|j: int| 0 <= j < i ==> #[trigger] events@[j] == device_event(views[j])->Some_0,
        decreases definition.events.len() - i,
    {
        match encode_macro_event(&definition.events[i]) {
            Ok(e) => events.push(e),
            Err(err) => {
                assert(views[i as int] == definition.events@[i as int]@);
                return Err(err);
            },
        }
        i += 1;
    }
    assert(events@ =~= device_timeline(views));
    match PulsefireRaidMacro::play_once_for(control, events.as_slice()) {
        Ok(m) => Ok(m),
        Err(e) => Err(PulsefireRaidError::InvalidMacro(e)),
    }
}

impl PulsefireRaidRuntimeAssignment {
    pub closed spec fn spec_control(&self) -> PulsefireRaidControl {
        self.control
    }

    pub closed spec fn spec_ordinary(&self) -> Option<ButtonBinding> {
        match self.action {
            PulsefireRaidRuntimeAction::Ordinary(b) => Some(b),
            PulsefireRaidRuntimeAction::Macro(_) => None,
        }
    }

    pub closed spec fn spec_macro(&self) -> Option<MacroDefinition> {
        match self.action {
            PulsefireRaidRuntimeAction::Ordinary(_) => None,
            PulsefireRaidRuntimeAction::Macro(d) => Some(d),
        }
    }

    /// Validate an ordinary binding: a general control and a binding whose
    /// record is capture-backed on every general control.
    pub fn ordinary(control: PulsefireRaidControl, binding: ButtonBinding) -> (res: Result<Self, PulsefireRaidError>)
        ensures
            is_general_control(control) && is_portable_binding(binding) ==> (res matches Ok(a)
                && a.spec_control() == control && a.spec_ordinary() == Some(binding)),
            !(is_general_control(control) && is_portable_binding(binding)) ==> (res matches Err(
                PulsefireRaidError::UnconfirmedRuntimeButtonBinding { control: c, binding: b },
            ) && c == control && b == binding),
    {
        let general_control = !(control == PulsefireRaidControl::LeftClick || control
            == PulsefireRaidControl::RightClick);
        let portable_binding = match &binding {
            ButtonBinding::Disabled => true,
            ButtonBinding::Mouse(_) => true,
            ButtonBinding::Multimedia(_) => true,
            ButtonBinding::WindowsShortcut(_) => true,
            ButtonBinding::Keyboard(usage) => is_supported_runtime_keyboard_usage(*usage),
            ButtonBinding::Macro(_) => false,
        };
        if !(general_control && portable_binding) {
            return Err(PulsefireRaidError::UnconfirmedRuntimeButtonBinding { control, binding });
        }
        Ok(PulsefireRaidRuntimeAssignment { control, action: PulsefireRaidRuntimeAction::Ordinary(binding) })
    }

    /// Validate a portable macro for the runtime path of Button 4 or
    /// Button 5.
    pub fn macro_timeline(control: PulsefireRaidControl, definition: MacroDefinition) -> (res: Result<
        Self,
        PulsefireRaidError,
    >)
        ensures
            !(control == PulsefireRaidControl::Button4 || control == PulsefireRaidControl::Button5)
                ==> (res matches Err(PulsefireRaidError::UnconfirmedMacroControl(c)) && c == control),
            (control == PulsefireRaidControl::Button4 || control == PulsefireRaidControl::Button5)
                ==> {
                &&& definition_encodable(control, definition) ==> (res matches Ok(a) && a.spec_control()
                    == control && a.spec_macro() == Some(definition))
                &&& !definition_encodable(control, definition) ==> (res matches Err(err)
                    && is_definition_error(control, definition, err))
            },
    {
        if !(control == PulsefireRaidControl::Button4 || control == PulsefireRaidControl::Button5) {
            return Err(PulsefireRaidError::UnconfirmedMacroControl(control));
        }
        if let Err(e) = encode_macro_definition(control, &definition) {
            return Err(e);
        }
        Ok(PulsefireRaidRuntimeAssignment { control, action: PulsefireRaidRuntimeAction::Macro(definition) })
    }

    pub fn control(&self) -> (control: PulsefireRaidControl)
        ensures
            control == self.spec_control(),
    {
        self.control
    }

    pub fn ordinary_binding(&self) -> (binding: Option<&ButtonBinding>)
        ensures
            match self.spec_ordinary() {
                Some(b) => binding == Some(&b),
                None => binding is None,
            },
    {
        match &self.action {
            PulsefireRaidRuntimeAction::Ordinary(binding) => Some(binding),
            PulsefireRaidRuntimeAction::Macro(_) => None,
        }
    }

    pub fn macro_definition(&self) -> (definition: Option<&MacroDefinition>)
        ensures
            match self.spec_macro() {
                Some(d) => definition == Some(&d),
                None => definition is None,
            },
    {
        match &self.action {
            PulsefireRaidRuntimeAction::Ordinary(_) => None,
            PulsefireRaidRuntimeAction::Macro(definition) => Some(definition),
        }
    }

    /// The macro report of a macro assignment; none for an ordinary one.
    pub fn encoded_macro(&self) -> (res: Result<Option<PulsefireRaidMacro>, PulsefireRaidError>)
        ensures
            self.spec_macro() is None <==> (res matches Ok(None)),
            self.spec_macro() matches Some(d) ==> (definition_encodable(self.spec_control(), d)
                ==> res is Ok),
            self.spec_macro() matches Some(d) ==> (!definition_encodable(self.spec_control(), d)
                ==> (res matches Err(e) && is_definition_error(self.spec_control(), d, e))),
            res matches Ok(Some(m)) ==> m.spec_control() == self.spec_control() && (self.spec_macro() matches Some(
                d,
            ) && m@ == definition_report(self.spec_control(), d)),
    {
        match &self.action {
            PulsefireRaidRuntimeAction::Ordinary(_) => Ok(None),
            PulsefireRaidRuntimeAction::Macro(definition) => match encode_macro_definition(self.control, definition) {
                Ok(m) => Ok(Some(m)),
                Err(e) => Err(e),
            },
        }
    }
}


/// The Pulsefire Raid on its configuration collection. Beside the
/// transport it keeps, as ghost state, every feature report it has handed
/// to the transport and every report the transport returned to a read.
pub struct PulsefireRaid<T> {
    transport: T,
    sent: Ghost<Seq<Seq<u8>>>,
    received: Ghost<Seq<Seq<u8>>>,
    lengths: Ghost<Seq<usize>>,
    acks: Ghost<Seq<(usize, Seq<u8>)>>,
}

impl<T> PulsefireRaid<T> {
    /// The feature reports handed to the transport, oldest first.
    pub closed spec fn sent_reports(&self) -> Seq<Seq<u8>> {
        self.sent@
    }

    /// The reports the transport returned to profile reads, oldest first.
    pub closed spec fn received_reports(&self) -> Seq<Seq<u8>> {
        self.received@
    }

    /// The lengths the transport reported for those reports, oldest first.
    pub closed spec fn received_lengths(&self) -> Seq<usize> {
        self.lengths@
    }

    /// The save acknowledgements read, oldest first: the length the
    /// acknowledgement transport reported and the eight bytes it filled.
    pub closed spec fn received_acknowledgements(&self) -> Seq<(usize, Seq<u8>)> {
        self.acks@
    }

    /// The transport the driver speaks through.
    pub closed spec fn spec_transport(&self) -> T {
        self.transport
    }
}

/// An error that the transport or a malformed profile answer can cause.
pub open spec fn is_exchange_error(e: PulsefireRaidError) -> bool {
    ||| e is Transport
    ||| e is ShortFeatureWrite
    ||| e is WrongProfileResponseLength
    ||| e is WrongProfileResponse
    ||| e is InvalidProfile
}

/// The runtime-profile access prelude `07 03 04 64`.
pub open spec fn prelude_report() -> Seq<u8> {
    zero_filled(seq![0x07u8, 0x03, 0x04, 0x64])
}

/// The profile read request `07 81`.
pub open spec fn read_request_report() -> Seq<u8> {
    zero_filled(seq![0x07u8, 0x81])
}

/// The two reports that start every runtime profile read.
pub open spec fn runtime_read_reports() -> Seq<Seq<u8>> {
    seq![prelude_report(), read_request_report()]
}

/// The host-write report of a profile image: its opcode byte becomes `01`.
pub open spec fn write_report_of(image: Seq<u8>) -> Seq<u8> {
    image.update(1, 0x01)
}

/// A runtime profile as the device returns it to a read: report `07`,
/// read-response opcode `81`, runtime section `04`, 264 bytes.
pub open spec fn runtime_image(image: Seq<u8>) -> bool {
    image.len() == 264 && image[0] == 0x07 && image[1] == 0x81 && image[2] == 0x04
}

/// `after` is `before` followed by a runtime profile read that began: the
/// first report handed over after `before` is the access prelude.
pub open spec fn read_started(before: Seq<Seq<u8>>, after: Seq<Seq<u8>>) -> bool {
    after.len() > before.len() && after.take(before.len() as int) == before && after[before.len() as int]
        == prelude_report()
}

/// `after` begins with all of `before`.
pub open spec fn extends(before: Seq<Seq<u8>>, after: Seq<Seq<u8>>) -> bool {
    after.len() >= before.len() && after.take(before.len() as int) == before
}

/// A DPI value the sensor accepts.
pub open spec fn dpi_accepted(dpi: u32) -> bool {
    validate_dpi_spec(
        crate::capability::DpiCapabilities { minimum: 200, maximum: 16000, step: 50, max_stages: 5 },
        dpi,
    ) is Ok
}

proof fn lemma_read_started_extends(before: Seq<Seq<u8>>, mid: Seq<Seq<u8>>, after: Seq<Seq<u8>>)
    requires
        read_started(before, mid),
        extends(mid, after),
    ensures
        read_started(before, after),
{
    assert(after.take(before.len() as int) =~= mid.take(before.len() as int));
    assert(after[before.len() as int] == after.take(mid.len() as int)[before.len() as int]);
}

proof fn lemma_read_started_push(before: Seq<Seq<u8>>, after: Seq<Seq<u8>>, report: Seq<u8>)
    requires
        read_started(before, after),
    ensures
        read_started(before, after.push(report)),
{
    assert(after.push(report).take(before.len() as int) =~= after.take(before.len() as int));
}

/// Why a profile answer of `length` bytes held in `response` is refused
/// when a profile of section `expected` was asked for, if it is: a wrong
/// length, a report that is no profile image, or another kind or section.
pub open spec fn response_error(length: usize, response: Seq<u8>, expected: ProfileSection) -> Option<
    PulsefireRaidError,
> {
    if length != 264 {
        Some(PulsefireRaidError::WrongProfileResponseLength(length))
    } else {
        match profile_parse_error(response) {
            Some(e) => Some(PulsefireRaidError::InvalidProfile(e)),
            None => {
                let kind = image_kind(response[1])->Some_0;
                let section = image_section(response[2])->Some_0;
                if kind != ProfileImageKind::DeviceReadResponse || section != expected {
                    Some(PulsefireRaidError::WrongProfileResponse { kind, section })
                } else {
                    None
                }
            },
        }
    }
}

/// The outcome owed for a profile answer: its refusal, or the profile it
/// holds.
pub open spec fn response_outcome(
    length: usize,
    response: Seq<u8>,
    expected: ProfileSection,
    res: Result<PerformanceProfile, PulsefireRaidError>,
) -> bool {
    match response_error(length, response, expected) {
        Some(e) => res == Err::<PerformanceProfile, PulsefireRaidError>(e),
        None => res matches Ok(p) && p@ == response && p.spec_kind() == ProfileImageKind::DeviceReadResponse
            && p.spec_section() == expected,
    }
}

/// The refusal of the runtime answer that arrived between two states of
/// the logs, if one arrived and was refused.
pub open spec fn refused_answer(before: Seq<usize>, lengths: Seq<usize>, received: Seq<Seq<u8>>) -> Option<
    PulsefireRaidError,
> {
    if lengths.len() == before.len() + 1 {
        response_error(lengths.last(), received.last(), ProfileSection::Runtime)
    } else {
        None
    }
}

/// The runtime image that arrived between two states of the logs, if one
/// arrived and was accepted.
pub open spec fn accepted_answer(before: Seq<usize>, lengths: Seq<usize>, received: Seq<Seq<u8>>) -> Option<
    Seq<u8>,
> {
    if lengths.len() == before.len() + 1 && response_error(lengths.last(), received.last(), ProfileSection::Runtime)
        is None {
        Some(received.last())
    } else {
        None
    }
}

/// `after` is `before` with one more report at its end.
pub open spec fn one_more(before: Seq<Seq<u8>>, after: Seq<Seq<u8>>) -> bool {
    after.len() == before.len() + 1 && after.drop_last() == before
}

/// The record that points a control at its runtime macro slot.
pub open spec fn macro_reference_for(control: PulsefireRaidControl) -> Seq<u8> {
    seq![0x53u8, 0x00, 0x00, crate::raid_macro::macro_slot(control)->Some_0]
}

/// The reports that apply an assignment to a runtime image read from the
/// device: a macro's own report first, then the patched image.
pub open spec fn assignment_reports(image: Seq<u8>, a: PulsefireRaidRuntimeAssignment) -> Seq<Seq<u8>> {
    let control = a.spec_control();
    match a.spec_macro() {
        Some(d) => seq![
            definition_report(control, d),
            write_report_of(with_record(image, control_offset(control), macro_reference_for(control))),
        ],
        None => seq![
            write_report_of(with_record(image, control_offset(control), encode_record(a.spec_ordinary()->Some_0)->Ok_0)),
        ],
    }
}

/// An assignment whose macro the device cannot store for its control.
pub open spec fn unencodable_macro(a: PulsefireRaidRuntimeAssignment) -> bool {
    a.spec_macro() matches Some(d) && !definition_encodable(a.spec_control(), d)
}

/// The macro report of a definition for a control.
pub open spec fn definition_report(control: PulsefireRaidControl, definition: MacroDefinition) -> Seq<u8> {
    crate::raid_macro::timeline_report(
        crate::raid_macro::macro_slot(control)->Some_0,
        device_timeline(definition_events(definition)),
    )
}

/// The runtime DPI profile after changing one existing stage.
pub open spec fn stage_updated(
    before: Seq<DpiStage>,
    stage_index: int,
    dpi: Option<u32>,
    color: Option<RgbColor>,
) -> Seq<DpiStage> {
    let s = before[stage_index];
    let s1 = match dpi {
        Some(d) => DpiStage { x: d, y: d, ..s },
        None => s,
    };
    let s2 = match color {
        Some(c) => DpiStage { color: c, ..s1 },
        None => s1,
    };
    before.update(stage_index, s2)
}

/// Check a profile answer of `length` bytes in `response` against the
/// section asked for, and hold it as a profile when it is one.
pub fn check_profile_response(length: usize, response: &[u8], expected: ProfileSection) -> (res: Result<
    PerformanceProfile,
    PulsefireRaidError,
>)
    ensures
        response_outcome(length, response@, expected, res),
{
    if length != 264 {
        return Err(PulsefireRaidError::WrongProfileResponseLength(length));
    }
    let profile = match PerformanceProfile::parse(response) {
        Ok(p) => p,
        Err(e) => return Err(PulsefireRaidError::InvalidProfile(e)),
    };
    if profile.kind() != ProfileImageKind::DeviceReadResponse || profile.section() != expected {
        return Err(PulsefireRaidError::WrongProfileResponse { kind: profile.kind(), section: profile.section() });
    }
    Ok(profile)
}

/// The acknowledgement the device sends for a save-stage report with
/// `opcode`: `00 00 07 <opcode> <FF for 81, else 00> 00 00 00`.
pub open spec fn save_acknowledgement_spec(opcode: u8) -> Seq<u8> {
    seq![0x00u8, 0x00, 0x07, opcode, if opcode == 0x81 { 0xFFu8 } else { 0x00u8 }, 0x00, 0x00, 0x00]
}

/// The acknowledgement expected for a save-stage report with `opcode`.
pub fn save_acknowledgement(opcode: u8) -> (ack: [u8; 8])
    ensures
        ack@ == save_acknowledgement_spec(opcode),
{
    let flag: u8 = if opcode == 0x81 { 0xFF } else { 0x00 };
    let ack = [0x00, 0x00, 0x07, opcode, flag, 0x00, 0x00, 0x00];
    assert(ack@ =~= save_acknowledgement_spec(opcode));
    ack
}

/// The outcome owed for an acknowledgement of `length` bytes held in
/// `actual`, read after a report with `opcode`: a wrong length, another
/// answer, or success.
pub open spec fn acknowledgement_outcome(opcode: u8, length: usize, actual: Seq<u8>, res: Result<(), PulsefireRaidError>) -> bool {
    if length != 8 {
        res == Err::<(), PulsefireRaidError>(PulsefireRaidError::WrongSaveAcknowledgementLength { opcode, actual: length })
    } else if actual != save_acknowledgement_spec(opcode) {
        res matches Err(PulsefireRaidError::UnexpectedSaveAcknowledgement { opcode: o, actual: a }) && o == opcode && a@
            == actual
    } else {
        res is Ok
    }
}

/// Check an acknowledgement of `length` bytes in `actual` against the one
/// owed for a report with `opcode`.
pub fn check_save_acknowledgement(opcode: u8, length: usize, actual: &[u8; 8]) -> (res: Result<(), PulsefireRaidError>)
    ensures
        acknowledgement_outcome(opcode, length, actual@, res),
{
    if length != 8 {
        return Err(PulsefireRaidError::WrongSaveAcknowledgementLength { opcode, actual: length });
    }
    let expected = save_acknowledgement(opcode);
    let mut same = true;
    let mut i: usize = 0;
    while i < 8
        invariant
            i <= 8,
            expected@ == save_acknowledgement_spec(opcode),
            same <==> (forall|j: int| 0 <= j < i ==> actual@[j] == expected@[j]),
        decreases 8 - i,
    {
        if actual[i] != expected[i] {
            same = false;
        }
        i += 1;
    }
    if !same {
        assert(actual@ != save_acknowledgement_spec(opcode));
        return Err(PulsefireRaidError::UnexpectedSaveAcknowledgement { opcode, actual: *actual });
    }
    assert(actual@ =~= save_acknowledgement_spec(opcode));
    Ok(())
}

/// An error of the acknowledged report exchange: the transport failed, a
/// write was short, or an acknowledgement was missing or wrong.
pub open spec fn is_link_error(e: PulsefireRaidError) -> bool {
    ||| e is Transport
    ||| e is ShortFeatureWrite
    ||| e is WrongSaveAcknowledgementLength
    ||| e is UnexpectedSaveAcknowledgement
}

/// The five reports that select and read the onboard profile: the onboard
/// prelude, the three Solid lighting reports and the read request.
pub open spec fn onboard_read_reports(wheel: RgbColor, logo: RgbColor) -> Seq<Seq<u8>> {
    seq![
        onboard_prelude_report(),
        onboard_lighting_report(0, wheel, logo),
        onboard_lighting_report(1, wheel, logo),
        onboard_lighting_report(2, wheel, logo),
        read_request_report(),
    ]
}

/// The onboard form of a Button 5 macro definition, when one is saved.
pub open spec fn onboard_macro_reports(definition: Option<MacroDefinition>) -> Seq<Seq<u8>> {
    match definition {
        Some(d) => seq![definition_report(PulsefireRaidControl::Button5, d).update(2, 0x01)],
        None => seq![],
    }
}

/// Every report of an onboard save after the runtime read: the onboard
/// read, the macro definition if any, the onboard image with the runtime
/// settings copied in, and the runtime prelude that ends the save.
pub open spec fn onboard_save_reports(
    runtime: Seq<u8>,
    onboard: Seq<u8>,
    wheel: RgbColor,
    logo: RgbColor,
    definition: Option<MacroDefinition>,
) -> Seq<Seq<u8>> {
    onboard_read_reports(wheel, logo) + onboard_macro_reports(definition) + seq![
        write_report_of(confirmed_settings_copied(onboard, runtime)),
        prelude_report(),
    ]
}

/// The definition a caller handed over, as a value.
pub open spec fn given_definition(definition: Option<&MacroDefinition>) -> Option<MacroDefinition> {
    match definition {
        Some(d) => Some(*d),
        None => None,
    }
}

/// Why an accepted runtime image cannot be saved with `definition`, if it
/// cannot: an unconfirmed setting, or a Button 5 macro reference and a
/// definition that do not come together.
pub open spec fn save_refusal(runtime: Seq<u8>, definition: Option<MacroDefinition>) -> Option<PulsefireRaidError> {
    match confirmed_runtime_error(runtime) {
        Some(e) => Some(PulsefireRaidError::InvalidProfile(e)),
        None => {
            let referenced = runtime.subrange(0x8C, 0x90) == macro_reference_record(4);
            if referenced && definition is None {
                Some(PulsefireRaidError::MissingOnboardMacroDefinition)
            } else if !referenced && definition is Some {
                Some(PulsefireRaidError::UnexpectedOnboardMacroDefinition)
            } else {
                None
            }
        },
    }
}

/// The result owed for a completed save of an accepted runtime image.
pub open spec fn saved_settings(runtime: Seq<u8>, definition: Option<MacroDefinition>, r: PulsefireRaidOnboardSaveResult) -> bool {
    &&& polling_rate_spec(runtime) == Ok::<PollingRate, PerformanceProfileError>(r.polling_rate)
    &&& dpi_profile_spec(runtime) == Ok::<(Seq<DpiStage>, usize), PerformanceProfileError>(
        (r.dpi_profile.stages@, r.dpi_profile.active_stage),
    )
    &&& r.macro_saved == definition is Some
}

/// What an onboard save owes once a runtime answer arrived. `sent` began
/// as `sent_before`; the answers are `lengths[n..]` and `received[m..]`.
/// A refused runtime answer, or a runtime image that cannot be saved, ends
/// the save after the runtime read; a refused onboard answer ends it after
/// the onboard read; otherwise the save sends every report of
/// `onboard_save_reports` and returns the runtime settings, or stops on a
/// link error.
pub open spec fn save_outcome(
    sent_before: Seq<Seq<u8>>,
    n: int,
    m: int,
    sent: Seq<Seq<u8>>,
    lengths: Seq<usize>,
    received: Seq<Seq<u8>>,
    wheel: RgbColor,
    logo: RgbColor,
    definition: Option<MacroDefinition>,
    res: Result<PulsefireRaidOnboardSaveResult, PulsefireRaidError>,
) -> bool {
    let runtime = received[m];
    match response_error(lengths[n], runtime, ProfileSection::Runtime) {
        Some(e) => res == Err::<PulsefireRaidOnboardSaveResult, PulsefireRaidError>(e) && lengths.len() == n + 1
            && sent == sent_before + runtime_read_reports(),
        None => match save_refusal(runtime, definition) {
            Some(e) => res == Err::<PulsefireRaidOnboardSaveResult, PulsefireRaidError>(e) && lengths.len() == n + 1
                && sent == sent_before + runtime_read_reports(),
            None => if lengths.len() == n + 1 {
                res matches Err(e) && is_link_error(e)
            } else {
                let onboard = received[m + 1];
                &&& lengths.len() == n + 2
                &&& match response_error(lengths[n + 1], onboard, ProfileSection::Onboard) {
                    Some(e) => res == Err::<PulsefireRaidOnboardSaveResult, PulsefireRaidError>(e) && sent == sent_before
                        + runtime_read_reports() + onboard_read_reports(wheel, logo),
                    None => {
                        &&& res matches Ok(r) ==> sent == sent_before + runtime_read_reports() + onboard_save_reports(
                            runtime,
                            onboard,
                            wheel,
                            logo,
                            definition,
                        ) && saved_settings(runtime, definition, r)
                        &&& res matches Err(e) ==> is_link_error(e)
                    },
                }
            },
        },
    }
}

/// An acknowledgement error: the answer had the wrong length or bytes.
pub open spec fn is_acknowledgement_error(e: PulsefireRaidError) -> bool {
    e is WrongSaveAcknowledgementLength || e is UnexpectedSaveAcknowledgement
}

/// One acknowledged report: its acknowledgement was logged and accepted,
/// or logged and refused with the error, or never read because the
/// transport failed or the write was short.
pub open spec fn ack_step(
    acks: Seq<(usize, Seq<u8>)>,
    after: Seq<(usize, Seq<u8>)>,
    report: Seq<u8>,
    res: Result<(), PulsefireRaidError>,
) -> bool {
    if res is Ok || is_acknowledgement_error(res->Err_0) {
        &&& after.len() == acks.len() + 1
        &&& after.drop_last() == acks
        &&& acknowledgement_outcome(report[1], after.last().0, after.last().1, res)
    } else {
        &&& res->Err_0 is Transport || res->Err_0 is ShortFeatureWrite
        &&& after == acks
    }
}

/// Each acknowledgement answers the report at its position and is the
/// one owed for it.
pub open spec fn all_acknowledged(reports: Seq<Seq<u8>>, acks: Seq<(usize, Seq<u8>)>) -> bool {
    &&& reports.len() == acks.len()
    &&& forall|i: int|
        0 <= i < acks.len() ==> acknowledgement_outcome(
            reports[i][1],
            #[trigger] acks[i].0,
            acks[i].1,
            Ok::<(), PulsefireRaidError>(()),
        )
}

/// Every report sent after `sent_before` got its owed acknowledgement,
/// logged after `acks_before`.
pub open spec fn acknowledged_since(
    sent_before: Seq<Seq<u8>>,
    acks_before: Seq<(usize, Seq<u8>)>,
    sent: Seq<Seq<u8>>,
    acks: Seq<(usize, Seq<u8>)>,
) -> bool {
    &&& sent.len() >= sent_before.len()
    &&& acks.len() >= acks_before.len()
    &&& all_acknowledged(sent.skip(sent_before.len() as int), acks.skip(acks_before.len() as int))
}

/// The acknowledgements behind an error `e` of an acknowledged exchange:
/// an acknowledgement error comes from the last acknowledgement, after
/// every earlier report was acknowledged; a transport error or a short
/// write may leave the last report unacknowledged; any other error comes
/// after every report was acknowledged.
pub open spec fn ack_outcome_since(
    sent_before: Seq<Seq<u8>>,
    acks_before: Seq<(usize, Seq<u8>)>,
    sent: Seq<Seq<u8>>,
    acks: Seq<(usize, Seq<u8>)>,
    e: PulsefireRaidError,
) -> bool {
    if is_acknowledgement_error(e) {
        &&& sent.len() > sent_before.len()
        &&& acks.len() > acks_before.len()
        &&& acknowledged_since(sent_before, acks_before, sent.drop_last(), acks.drop_last())
        &&& acknowledgement_outcome(sent.last()[1], acks.last().0, acks.last().1, Err::<(), PulsefireRaidError>(e))
    } else if e is Transport || e is ShortFeatureWrite {
        ||| acknowledged_since(sent_before, acks_before, sent, acks)
        ||| sent.len() > sent_before.len() && acknowledged_since(sent_before, acks_before, sent.drop_last(), acks)
    } else {
        acknowledged_since(sent_before, acks_before, sent, acks)
    }
}

proof fn lemma_ack_step(
    sent_before: Seq<Seq<u8>>,
    acks_before: Seq<(usize, Seq<u8>)>,
    sent: Seq<Seq<u8>>,
    acks: Seq<(usize, Seq<u8>)>,
    report: Seq<u8>,
    after: Seq<(usize, Seq<u8>)>,
    res: Result<(), PulsefireRaidError>,
)
    requires
        acknowledged_since(sent_before, acks_before, sent, acks),
        ack_step(acks, after, report, res),
    ensures
        res is Ok ==> acknowledged_since(sent_before, acks_before, sent.push(report), after),
        res matches Err(e) ==> ack_outcome_since(sent_before, acks_before, sent.push(report), after, e),
{
    let k = sent_before.len() as int;
    let j = acks_before.len() as int;
    assert(sent.push(report).skip(k) =~= sent.skip(k).push(report));
    assert(sent.push(report).drop_last() =~= sent);
    if res is Ok || is_acknowledgement_error(res->Err_0) {
        assert(after.skip(j) =~= acks.skip(j).push(after.last()));
        assert(after.drop_last() == acks);
        if res is Ok {
            let r = sent.push(report).skip(k);
            let a = after.skip(j);
            assert forall|i: int| 0 <= i < a.len() implies acknowledgement_outcome(
                r[i][1],
                #[trigger] a[i].0,
                a[i].1,
                Ok::<(), PulsefireRaidError>(()),
            ) by {
                if i < a.len() - 1 {
                    assert(a[i] == acks.skip(j)[i]);
                    assert(r[i] == sent.skip(k)[i]);
                }
            }
        }
    }
}

impl<T: HidTransport> PulsefireRaid<T> {
    /// Accept only the configuration collection, interface 1.
    pub fn new(transport: T) -> (res: Result<Self, PulsefireRaidError>)
        ensures
            res is Ok <==> transport.spec_interface_number() == 1,
            res matches Err(e) ==> e == PulsefireRaidError::WrongInterface(transport.spec_interface_number()),
            res matches Ok(d) ==> d.sent_reports() == Seq::<Seq<u8>>::empty()
                && d.received_reports() == Seq::<Seq<u8>>::empty() && d.received_lengths()
                == Seq::<usize>::empty() && d.spec_transport() == transport,
    {
        let interface = transport.interface_number();
        if interface != 1 {
            return Err(PulsefireRaidError::WrongInterface(interface));
        }
        Ok(PulsefireRaid {
            transport,
            sent: Ghost(Seq::empty()),
            received: Ghost(Seq::empty()),
            lengths: Ghost(Seq::empty()),
            acks: Ghost(Seq::empty()),
        })
    }

    /// The transport, to inspect or reuse it.
    pub fn into_transport(self) -> (transport: T)
        ensures
            transport == self.spec_transport(),
    {
        self.transport
    }

    /// Send one feature report; a short write is an error.
    fn send_feature_report(&mut self, report: &[u8]) -> (res: Result<(), PulsefireRaidError>)
        ensures
            res matches Err(e) ==> (e is Transport || (e matches PulsefireRaidError::ShortFeatureWrite {
                expected,
                actual,
            } && expected == report@.len() && actual != expected)),
            final(self).sent_reports() == old(self).sent_reports().push(report@),
            final(self).received_reports() == old(self).received_reports(),
            final(self).received_lengths() == old(self).received_lengths(),
            final(self).received_acknowledgements() == old(self).received_acknowledgements(),
    {
        proof {
            self.sent@ = self.sent@.push(report@);
        }
        let actual = match self.transport.send_feature_report(report) {
            Ok(n) => n,
            Err(e) => return Err(PulsefireRaidError::Transport(e)),
        };
        if actual != report.len() {
            return Err(PulsefireRaidError::ShortFeatureWrite { expected: report.len(), actual });
        }
        Ok(())
    }

    /// Set volatile direct colors for both LEDs; nothing is saved onboard.
    pub fn set_volatile_direct_rgb_with_wait<W: FnMut(u64)>(
        &mut self,
        wheel: RgbColor,
        logo: RgbColor,
        wait: W,
    ) -> (res: Result<(), PulsefireRaidError>)
        requires
            forall|ms: u64| call_requires(wait, (ms,)),
        ensures
            final(self).sent_reports() == old(self).sent_reports().push(
                crate::pulsefire_raid::direct_rgb_report(wheel, logo),
            ),
            final(self).received_reports() == old(self).received_reports(),
    {
        let mut wait = wait;
        let report = encode_direct_rgb(wheel, logo);
        if let Err(e) = self.send_feature_report(&report) {
            return Err(e);
        }
        wait(DIRECT_RGB_DELAY_MS);
        Ok(())
    }

    /// Read one 264-byte profile response of the expected section.
    fn read_profile_response(&mut self, expected_section: ProfileSection) -> (res: Result<
        PerformanceProfile,
        PulsefireRaidError,
    >)
        ensures
            res matches Ok(p) ==> p.spec_kind() == ProfileImageKind::DeviceReadResponse
                && p.spec_section() == expected_section
                && final(self).received_reports() == old(self).received_reports().push(p@)
                && p@.len() == 264 && p@[0] == 0x07 && image_kind(p@[1]) == Some(ProfileImageKind::DeviceReadResponse)
                && image_section(p@[2]) == Some(expected_section),
            res matches Err(e) ==> is_exchange_error(e),
            final(self).sent_reports() == old(self).sent_reports(),
            final(self).received_acknowledgements() == old(self).received_acknowledgements(),
            final(self).received_lengths().len() == old(self).received_lengths().len() ==> (res matches Err(e)
                && e is Transport) && final(self).received_reports() == old(self).received_reports()
                && final(self).received_lengths() == old(self).received_lengths(),
            final(self).received_lengths().len() != old(self).received_lengths().len() ==> {
                &&& final(self).received_lengths() == old(self).received_lengths().push(final(self).received_lengths().last())
                &&& one_more(old(self).received_reports(), final(self).received_reports())
                &&& response_outcome(
                    final(self).received_lengths().last(),
                    final(self).received_reports().last(),
                    expected_section,
                    res,
                )
            },
    {
        let mut response: Vec<u8> = vec![0u8; 264];
        response.set(0, 0x07);
        let length = match self.transport.get_feature_report(response.as_mut_slice()) {
            Ok(n) => n,
            Err(e) => return Err(PulsefireRaidError::Transport(e)),
        };
        proof {
            self.received@ = self.received@.push(response@);
            self.lengths@ = self.lengths@.push(length);
            assert(self.received@.drop_last() =~= old(self).received@);
        }
        check_profile_response(length, response.as_slice(), expected_section)
    }

    /// Read the runtime profile: the access prelude, a wait, the read
    /// request, a wait, and the response. Nothing is written.
    pub fn runtime_profile_with_wait<W: FnMut(u64)>(&mut self, wait: W) -> (res: Result<
        PerformanceProfile,
        PulsefireRaidError,
    >)
        requires
            forall|ms: u64| call_requires(wait, (ms,)),
        ensures
            res matches Ok(p) ==> p.spec_kind() == ProfileImageKind::DeviceReadResponse
                && p.spec_section() == ProfileSection::Runtime
                && final(self).sent_reports() == old(self).sent_reports() + runtime_read_reports()
                && final(self).received_reports() == old(self).received_reports().push(p@)
                && runtime_image(p@),
            res matches Err(e) ==> is_exchange_error(e),
            read_started(old(self).sent_reports(), final(self).sent_reports()),
            final(self).received_lengths().len() == old(self).received_lengths().len() ==> res is Err
                && final(self).received_reports() == old(self).received_reports(),
            final(self).received_lengths().len() != old(self).received_lengths().len() ==> {
                &&& final(self).sent_reports() == old(self).sent_reports() + runtime_read_reports()
                &&& final(self).received_lengths() == old(self).received_lengths().push(final(self).received_lengths().last())
                &&& one_more(old(self).received_reports(), final(self).received_reports())
                &&& response_outcome(
                    final(self).received_lengths().last(),
                    final(self).received_reports().last(),
                    ProfileSection::Runtime,
                    res,
                )
            },
    {
        let mut wait = wait;
        let prelude = encode_runtime_profile_read_prelude();
        let r = self.send_feature_report(&prelude);
        assert(self.sent@.take(old(self).sent@.len() as int) =~= old(self).sent@);
        if let Err(e) = r {
            return Err(e);
        }
        wait(PROFILE_PRELUDE_DELAY_MS);
        let request = encode_profile_read_request();
        let ghost mid = self.sent@;
        let r = self.send_feature_report(&request);
        proof {
            lemma_read_started_push(old(self).sent@, mid, request@);
        }
        if let Err(e) = r {
            return Err(e);
        }
        wait(PROFILE_READ_DELAY_MS);
        self.read_profile_response(ProfileSection::Runtime)
    }

    /// Write a runtime profile back with the host-write opcode.
    fn write_runtime_profile(&mut self, profile: &PerformanceProfile) -> (res: Result<(), PulsefireRaidError>)
        requires
            profile.spec_section() == ProfileSection::Runtime,
        ensures
            final(self).sent_reports() == old(self).sent_reports().push(write_report_of(profile@)),
            final(self).received_reports() == old(self).received_reports(),
            final(self).received_lengths() == old(self).received_lengths(),
            res matches Err(e) ==> is_exchange_error(e),
    {
        if profile.section() != ProfileSection::Runtime {
            return Err(
                PulsefireRaidError::WrongProfileResponse { kind: profile.kind(), section: profile.section() },
            );
        }
        let report = profile.to_write_report();
        self.send_feature_report(&report)
    }

    /// Store a DPI profile in the runtime profile and write it.
    fn store_dpi_profile(&mut self, profile: &mut PerformanceProfile, dpi_profile: &DpiProfile) -> (res: Result<
        (),
        PulsefireRaidError,
    >)
        requires
            old(profile).spec_section() == ProfileSection::Runtime,
        ensures
            res is Ok ==> final(self).sent_reports() == old(self).sent_reports().push(
                write_report_of(dpi_patched(old(profile)@, dpi_profile.stages@, dpi_profile.active_stage)),
            ),
            final(self).received_reports() == old(self).received_reports(),
            res matches Err(e) ==> is_exchange_error(e),
            extends(old(self).sent_reports(), final(self).sent_reports()),
            final(self).received_lengths() == old(self).received_lengths(),
    {
        assert(self.sent@.take(self.sent@.len() as int) =~= self.sent@);
        if let Err(e) = profile.set_dpi_profile(dpi_profile) {
            return Err(PulsefireRaidError::InvalidProfile(e));
        }
        let res = self.write_runtime_profile(profile);
        assert(self.sent@.take(old(self).sent@.len() as int) =~= old(self).sent@);
        res
    }

    /// Change both axes of the active DPI stage in the runtime profile;
    /// every other stage, color, binding and unknown byte is kept. The value
    /// is validated before any report is sent.
    pub fn set_runtime_active_dpi_with_wait<W: FnMut(u64)>(&mut self, dpi: u32, wait: W) -> (res: Result<
        DpiProfile,
        PulsefireRaidError,
    >)
        requires
            forall|ms: u64| call_requires(wait, (ms,)),
        ensures
            validate_dpi_spec(
                crate::capability::DpiCapabilities { minimum: 200, maximum: 16000, step: 50, max_stages: 5 },
                dpi,
            ) matches Err(e) ==> (res matches Err(PulsefireRaidError::InvalidDpi(x)) && x == e)
                && final(self).sent_reports() == old(self).sent_reports(),
            res matches Ok(p) ==> {
                let image = final(self).received_reports().last();
                &&& one_more(old(self).received_reports(), final(self).received_reports())
                &&& runtime_image(image)
                &&& dpi_profile_spec(image) matches Ok((stages, active))
                &&& active < stages.len()
                &&& p.active_stage == active
                &&& p.stages@ == stages.update(active as int, DpiStage { x: dpi, y: dpi, ..stages[active as int] })
                &&& final(self).sent_reports() == old(self).sent_reports() + runtime_read_reports()
                    + seq![write_report_of(dpi_patched(image, p.stages@, p.active_stage))]
            },
            dpi_accepted(dpi) ==> read_started(old(self).sent_reports(), final(self).sent_reports())
                && (res matches Err(e) ==> is_exchange_error(e)),
            refused_answer(old(self).received_lengths(), final(self).received_lengths(), final(self).received_reports())
                matches Some(e) ==> (res matches Err(x) && x == e),
            accepted_answer(old(self).received_lengths(), final(self).received_lengths(), final(self).received_reports())
                matches Some(image) ==> (dpi_profile_spec(image) matches Err(e) ==> (res matches Err(x) && x
                == PulsefireRaidError::InvalidProfile(e))),
    {
        let dpi = match pulsefire_raid_dpi().validate(dpi) {
            Ok(d) => d,
            Err(e) => return Err(PulsefireRaidError::InvalidDpi(e)),
        };
        let mut profile = match self.runtime_profile_with_wait(wait) {
            Ok(p) => p,
            Err(e) => return Err(e),
        };
        let mut dpi_profile = match profile.dpi_profile() {
            Ok(d) => d,
            Err(e) => return Err(PulsefireRaidError::InvalidProfile(e)),
        };
        let ghost image = profile@;
        let ghost read = self.received@;
        let ghost stages0 = dpi_profile.stages@;
        let active = dpi_profile.active_stage;
        let mut stage = dpi_profile.stages[active];
        stage.x = dpi;
        stage.y = dpi;
        dpi_profile.stages.set(active, stage);
        let ghost mid = self.sent@;
        let stored = self.store_dpi_profile(&mut profile, &dpi_profile);
        proof {
            lemma_read_started_extends(old(self).sent@, mid, self.sent@);
        }
        if let Err(e) = stored {
            return Err(e);
        }
        assert(self.received@.drop_last() =~= old(self).received@);
        assert(self.received@.last() == image);
        assert(dpi_profile_spec(image) == Ok::<(Seq<DpiStage>, usize), PerformanceProfileError>((stages0, active)));
        assert(dpi_profile.stages@ =~= stages0.update(active as int, DpiStage { x: dpi, y: dpi, ..stages0[active as int] }));
        assert(self.sent@ =~= old(self).sent@ + runtime_read_reports() + seq![
            write_report_of(dpi_patched(image, dpi_profile.stages@, dpi_profile.active_stage)),
        ]);
        Ok(dpi_profile)
    }

    /// Change one existing runtime DPI stage (zero-based) and optionally make
    /// it active. Omitted values are kept. An empty update and an invalid
    /// value are rejected before any report is sent.
    pub fn set_runtime_dpi_stage_with_wait<W: FnMut(u64)>(
        &mut self,
        stage_index: usize,
        dpi: Option<u32>,
        color: Option<RgbColor>,
        activate: bool,
        wait: W,
    ) -> (res: Result<DpiProfile, PulsefireRaidError>)
        requires
            forall|ms: u64| call_requires(wait, (ms,)),
            stage_index < usize::MAX,
        ensures
            dpi is None && color is None && !activate ==> (res matches Err(PulsefireRaidError::EmptyDpiStageUpdate))
                && final(self).sent_reports() == old(self).sent_reports(),
            !(dpi is None && color is None && !activate) ==> (dpi matches Some(d) ==> (validate_dpi_spec(
                crate::capability::DpiCapabilities { minimum: 200, maximum: 16000, step: 50, max_stages: 5 },
                d,
            ) matches Err(e) ==> (res matches Err(PulsefireRaidError::InvalidDpi(x)) && x == e)
                && final(self).sent_reports() == old(self).sent_reports())),
            res matches Err(PulsefireRaidError::DpiStageNotFound { stage, stage_count }) ==> {
                let image = final(self).received_reports().last();
                &&& stage == stage_index + 1
                &&& one_more(old(self).received_reports(), final(self).received_reports())
                &&& runtime_image(image)
                &&& dpi_profile_spec(image) matches Ok((stages, _))
                &&& stage_count == stages.len() && stage_index >= stages.len()
                &&& final(self).sent_reports() == old(self).sent_reports() + runtime_read_reports()
            },
            res matches Ok(p) ==> {
                let image = final(self).received_reports().last();
                &&& one_more(old(self).received_reports(), final(self).received_reports())
                &&& runtime_image(image)
                &&& dpi_profile_spec(image) matches Ok((stages, active))
                &&& stage_index < stages.len()
                &&& p.stages@ == stage_updated(stages, stage_index as int, dpi, color)
                &&& p.active_stage == (if activate { stage_index } else { active })
                &&& final(self).sent_reports() == old(self).sent_reports() + runtime_read_reports()
                    + seq![write_report_of(dpi_patched(image, p.stages@, p.active_stage))]
            },
            !(dpi is None && color is None && !activate) && match dpi {
                Some(d) => dpi_accepted(d),
                None => true,
            } ==> read_started(old(self).sent_reports(), final(self).sent_reports()) && (res matches Err(e)
                ==> is_exchange_error(e) || e is DpiStageNotFound),
            refused_answer(old(self).received_lengths(), final(self).received_lengths(), final(self).received_reports())
                matches Some(e) ==> (res matches Err(x) && x == e),
            accepted_answer(old(self).received_lengths(), final(self).received_lengths(), final(self).received_reports())
                matches Some(image) ==> (dpi_profile_spec(image) matches Err(e) ==> (res matches Err(x) && x
                == PulsefireRaidError::InvalidProfile(e))),
    {
        if dpi.is_none() && color.is_none() && !activate {
            return Err(PulsefireRaidError::EmptyDpiStageUpdate);
        }
        let dpi = match dpi {
            Some(value) => match pulsefire_raid_dpi().validate(value) {
                Ok(d) => Some(d),
                Err(e) => return Err(PulsefireRaidError::InvalidDpi(e)),
            },
            None => None,
        };
        let mut profile = match self.runtime_profile_with_wait(wait) {
            Ok(p) => p,
            Err(e) => return Err(e),
        };
        let mut dpi_profile = match profile.dpi_profile() {
            Ok(d) => d,
            Err(e) => return Err(PulsefireRaidError::InvalidProfile(e)),
        };
        let ghost image = profile@;
        let ghost stages0 = dpi_profile.stages@;
        proof {
            assert(self.received@.drop_last() =~= old(self).received@);
        }
        let stage_count = dpi_profile.stages.len();
        if stage_index >= stage_count {
            return Err(
                PulsefireRaidError::DpiStageNotFound { stage: stage_index + 1, stage_count },
            );
        }
        let mut stage = dpi_profile.stages[stage_index];
        if let Some(d) = dpi {
            stage.x = d;
            stage.y = d;
        }
        if let Some(c) = color {
            stage.color = c;
        }
        dpi_profile.stages.set(stage_index, stage);
        if activate {
            dpi_profile.active_stage = stage_index;
        }
        assert(dpi_profile.stages@ =~= stage_updated(stages0, stage_index as int, dpi, color));
        let ghost mid = self.sent@;
        let stored = self.store_dpi_profile(&mut profile, &dpi_profile);
        proof {
            lemma_read_started_extends(old(self).sent@, mid, self.sent@);
        }
        if let Err(e) = stored {
            return Err(e);
        }
        assert(self.sent@ =~= old(self).sent@ + runtime_read_reports() + seq![
            write_report_of(dpi_patched(image, dpi_profile.stages@, dpi_profile.active_stage)),
        ]);
        Ok(dpi_profile)
    }

    /// Append one runtime DPI stage with equal axes, optionally active.
    pub fn add_runtime_dpi_stage_with_wait<W: FnMut(u64)>(
        &mut self,
        dpi: u32,
        color: RgbColor,
        activate: bool,
        wait: W,
    ) -> (res: Result<DpiProfile, PulsefireRaidError>)
        requires
            forall|ms: u64| call_requires(wait, (ms,)),
        ensures
            validate_dpi_spec(
                crate::capability::DpiCapabilities { minimum: 200, maximum: 16000, step: 50, max_stages: 5 },
                dpi,
            ) matches Err(e) ==> (res matches Err(PulsefireRaidError::InvalidDpi(x)) && x == e)
                && final(self).sent_reports() == old(self).sent_reports(),
            res matches Err(PulsefireRaidError::TooManyDpiStages(n)) ==> {
                let image = final(self).received_reports().last();
                &&& n == 5
                &&& one_more(old(self).received_reports(), final(self).received_reports())
                &&& runtime_image(image)
                &&& dpi_profile_spec(image) matches Ok((stages, _))
                &&& stages.len() >= 5
                &&& final(self).sent_reports() == old(self).sent_reports() + runtime_read_reports()
            },
            res matches Ok(p) ==> {
                let image = final(self).received_reports().last();
                &&& one_more(old(self).received_reports(), final(self).received_reports())
                &&& runtime_image(image)
                &&& dpi_profile_spec(image) matches Ok((stages, active))
                &&& stages.len() < 5
                &&& p.stages@ == stages.push(DpiStage { x: dpi, y: dpi, color })
                &&& p.active_stage == (if activate { stages.len() as usize } else { active })
                &&& final(self).sent_reports() == old(self).sent_reports() + runtime_read_reports()
                    + seq![write_report_of(dpi_patched(image, p.stages@, p.active_stage))]
            },
            dpi_accepted(dpi) ==> read_started(old(self).sent_reports(), final(self).sent_reports())
                && (res matches Err(e) ==> is_exchange_error(e) || e is TooManyDpiStages),
            refused_answer(old(self).received_lengths(), final(self).received_lengths(), final(self).received_reports())
                matches Some(e) ==> (res matches Err(x) && x == e),
            accepted_answer(old(self).received_lengths(), final(self).received_lengths(), final(self).received_reports())
                matches Some(image) ==> (dpi_profile_spec(image) matches Err(e) ==> (res matches Err(x) && x
                == PulsefireRaidError::InvalidProfile(e))),
    {
        let dpi = match pulsefire_raid_dpi().validate(dpi) {
            Ok(d) => d,
            Err(e) => return Err(PulsefireRaidError::InvalidDpi(e)),
        };
        let mut profile = match self.runtime_profile_with_wait(wait) {
            Ok(p) => p,
            Err(e) => return Err(e),
        };
        let mut dpi_profile = match profile.dpi_profile() {
            Ok(d) => d,
            Err(e) => return Err(PulsefireRaidError::InvalidProfile(e)),
        };
        let ghost image = profile@;
        proof {
            assert(self.received@.drop_last() =~= old(self).received@);
        }
        if dpi_profile.stages.len() >= 5 {
            return Err(PulsefireRaidError::TooManyDpiStages(5));
        }
        dpi_profile.stages.push(DpiStage::new(dpi, dpi, color));
        if activate {
            dpi_profile.active_stage = dpi_profile.stages.len() - 1;
        }
        let ghost mid = self.sent@;
        let stored = self.store_dpi_profile(&mut profile, &dpi_profile);
        proof {
            lemma_read_started_extends(old(self).sent@, mid, self.sent@);
        }
        if let Err(e) = stored {
            return Err(e);
        }
        assert(self.sent@ =~= old(self).sent@ + runtime_read_reports() + seq![
            write_report_of(dpi_patched(image, dpi_profile.stages@, dpi_profile.active_stage)),
        ]);
        Ok(dpi_profile)
    }

    /// Remove the final runtime DPI stage, keeping at least one.
    pub fn remove_runtime_last_dpi_stage_with_wait<W: FnMut(u64)>(&mut self, wait: W) -> (res: Result<
        DpiProfile,
        PulsefireRaidError,
    >)
        requires
            forall|ms: u64| call_requires(wait, (ms,)),
        ensures
            res matches Err(PulsefireRaidError::CannotRemoveOnlyDpiStage) ==> {
                let image = final(self).received_reports().last();
                &&& one_more(old(self).received_reports(), final(self).received_reports())
                &&& runtime_image(image)
                &&& dpi_profile_spec(image) matches Ok((stages, _))
                &&& stages.len() == 1
                &&& final(self).sent_reports() == old(self).sent_reports() + runtime_read_reports()
            },
            res matches Ok(p) ==> {
                let image = final(self).received_reports().last();
                &&& one_more(old(self).received_reports(), final(self).received_reports())
                &&& runtime_image(image)
                &&& dpi_profile_spec(image) matches Ok((stages, active))
                &&& stages.len() >= 2
                &&& p.stages@ == stages.drop_last()
                &&& p.active_stage == (if active >= stages.len() - 1 { (stages.len() - 2) as usize } else { active })
                &&& final(self).sent_reports() == old(self).sent_reports() + runtime_read_reports()
                    + seq![write_report_of(dpi_patched(image, p.stages@, p.active_stage))]
            },
            read_started(old(self).sent_reports(), final(self).sent_reports()),
            res matches Err(e) ==> is_exchange_error(e) || e is CannotRemoveOnlyDpiStage,
            refused_answer(old(self).received_lengths(), final(self).received_lengths(), final(self).received_reports())
                matches Some(e) ==> (res matches Err(x) && x == e),
            accepted_answer(old(self).received_lengths(), final(self).received_lengths(), final(self).received_reports())
                matches Some(image) ==> (dpi_profile_spec(image) matches Err(e) ==> (res matches Err(x) && x
                == PulsefireRaidError::InvalidProfile(e))),
    {
        let mut profile = match self.runtime_profile_with_wait(wait) {
            Ok(p) => p,
            Err(e) => return Err(e),
        };
        let mut dpi_profile = match profile.dpi_profile() {
            Ok(d) => d,
            Err(e) => return Err(PulsefireRaidError::InvalidProfile(e)),
        };
        let ghost image = profile@;
        let ghost stages0 = dpi_profile.stages@;
        proof {
            assert(self.received@.drop_last() =~= old(self).received@);
        }
        if dpi_profile.stages.len() == 1 {
            return Err(PulsefireRaidError::CannotRemoveOnlyDpiStage);
        }
        dpi_profile.stages.pop();
        assert(dpi_profile.stages@ =~= stages0.drop_last());
        if dpi_profile.active_stage >= dpi_profile.stages.len() {
            dpi_profile.active_stage = dpi_profile.stages.len() - 1;
        }
        let ghost mid = self.sent@;
        let stored = self.store_dpi_profile(&mut profile, &dpi_profile);
        proof {
            lemma_read_started_extends(old(self).sent@, mid, self.sent@);
        }
        if let Err(e) = stored {
            return Err(e);
        }
        assert(self.sent@ =~= old(self).sent@ + runtime_read_reports() + seq![
            write_report_of(dpi_patched(image, dpi_profile.stages@, dpi_profile.active_stage)),
        ]);
        Ok(dpi_profile)
    }

    /// Select an existing runtime DPI stage without changing its values.
    pub fn set_runtime_active_dpi_stage<W: FnMut(u64)>(&mut self, stage_index: usize, wait: W) -> (res: Result<
        DpiProfile,
        PulsefireRaidError,
    >)
        requires
            forall|ms: u64| call_requires(wait, (ms,)),
            stage_index < usize::MAX,
        ensures
            res matches Err(PulsefireRaidError::DpiStageNotFound { stage, stage_count }) ==> {
                let image = final(self).received_reports().last();
                &&& stage == stage_index + 1
                &&& one_more(old(self).received_reports(), final(self).received_reports())
                &&& runtime_image(image)
                &&& dpi_profile_spec(image) matches Ok((stages, _))
                &&& stage_count == stages.len() && stage_index >= stages.len()
                &&& final(self).sent_reports() == old(self).sent_reports() + runtime_read_reports()
            },
            res matches Ok(p) ==> {
                let image = final(self).received_reports().last();
                &&& one_more(old(self).received_reports(), final(self).received_reports())
                &&& runtime_image(image)
                &&& dpi_profile_spec(image) matches Ok((stages, _))
                &&& stage_index < stages.len()
                &&& p.stages@ == stages
                &&& p.active_stage == stage_index
                &&& final(self).sent_reports() == old(self).sent_reports() + runtime_read_reports()
                    + seq![write_report_of(dpi_patched(image, p.stages@, p.active_stage))]
            },
            read_started(old(self).sent_reports(), final(self).sent_reports()),
            res matches Err(e) ==> is_exchange_error(e) || e is DpiStageNotFound,
            refused_answer(old(self).received_lengths(), final(self).received_lengths(), final(self).received_reports())
                matches Some(e) ==> (res matches Err(x) && x == e),
            accepted_answer(old(self).received_lengths(), final(self).received_lengths(), final(self).received_reports())
                matches Some(image) ==> (dpi_profile_spec(image) matches Err(e) ==> (res matches Err(x) && x
                == PulsefireRaidError::InvalidProfile(e))),
    {
        let res = self.set_runtime_dpi_stage_with_wait(stage_index, None, None, true, wait);
        proof {
            if res is Ok {
                let image = self.received@.last();
                if let Ok((stages, active)) = dpi_profile_spec(image) {
                    assert(stage_updated(stages, stage_index as int, None, None) =~= stages);
                }
            }
        }
        res
    }

    /// Apply one validated assignment in runtime memory. A macro's report is
    /// sent before the profile that refers to it.
    pub fn set_runtime_button_assignment_with_wait<W: FnMut(u64)>(
        &mut self,
        assignment: PulsefireRaidRuntimeAssignment,
        wait: W,
    ) -> (res: Result<PulsefireRaidRuntimeAssignment, PulsefireRaidError>)
        requires
            forall|ms: u64| call_requires(wait, (ms,)),
        ensures
            res matches Ok(a) ==> {
                let image = final(self).received_reports().last();
                &&& a == assignment
                &&& one_more(old(self).received_reports(), final(self).received_reports())
                &&& runtime_image(image)
                &&& final(self).sent_reports() == old(self).sent_reports() + runtime_read_reports()
                    + assignment_reports(image, assignment)
            },
            unencodable_macro(assignment) ==> (res matches Err(e) && is_definition_error(
                assignment.spec_control(),
                assignment.spec_macro()->Some_0,
                e,
            )) && final(self).sent_reports() == old(self).sent_reports(),
            !unencodable_macro(assignment) ==> read_started(old(self).sent_reports(), final(self).sent_reports()) && (res matches Err(e)
                ==> is_exchange_error(e)),
            refused_answer(old(self).received_lengths(), final(self).received_lengths(), final(self).received_reports())
                matches Some(e) ==> (res matches Err(x) && x == e),
    {
        let control = assignment.control();
        let macro_report = match assignment.encoded_macro() {
            Ok(m) => m,
            Err(e) => return Err(e),
        };
        let mut profile = match self.runtime_profile_with_wait(wait) {
            Ok(p) => p,
            Err(e) => return Err(e),
        };
        let ghost image = profile@;
        let ghost after_read = self.sent@;
        proof {
            assert(self.received@.drop_last() =~= old(self).received@);
        }
        match macro_report {
            Some(m) => {
                proof {
                    let d = assignment.spec_macro()->Some_0;
                    assert(definition_encodable(control, d));
                    assert(crate::raid_macro::macro_slot(control) is Some);
                }
                if control == PulsefireRaidControl::Button4 || control == PulsefireRaidControl::Button5 {
                    let _ = m.apply_to_profile(&mut profile);
                } else {
                    return Err(PulsefireRaidError::UnconfirmedMacroControl(control));
                }
                let ghost mid = self.sent@;
                let sent = self.send_feature_report(m.as_bytes());
                proof {
                    lemma_read_started_push(old(self).sent@, mid, m@);
                }
                if let Err(e) = sent {
                    return Err(e);
                }
            },
            None => {
                match assignment.ordinary_binding() {
                    Some(binding) => {
                        if let Err(e) = profile.set_button_binding(control, binding) {
                            return Err(PulsefireRaidError::InvalidProfile(e));
                        }
                    },
                    None => {},
                }
            },
        }
        let ghost mid = self.sent@;
        let written = self.write_runtime_profile(&profile);
        proof {
            lemma_read_started_push(old(self).sent@, mid, write_report_of(profile@));
        }
        if let Err(e) = written {
            return Err(e);
        }
        assert(self.sent@ =~= old(self).sent@ + runtime_read_reports() + assignment_reports(image, assignment));
        Ok(assignment)
    }

    /// Set both primary buttons as one coupled runtime update; no state in
    /// which both buttons hold the same click is ever written.
    pub fn set_runtime_primary_button_layout_with_wait<W: FnMut(u64)>(
        &mut self,
        layout: PrimaryButtonLayout,
        wait: W,
    ) -> (res: Result<PrimaryButtonLayout, PulsefireRaidError>)
        requires
            forall|ms: u64| call_requires(wait, (ms,)),
        ensures
            res matches Ok(l) ==> {
                let image = final(self).received_reports().last();
                &&& l == layout
                &&& one_more(old(self).received_reports(), final(self).received_reports())
                &&& runtime_image(image)
                &&& final(self).sent_reports() == old(self).sent_reports() + runtime_read_reports()
                    + seq![write_report_of(with_primary_layout(image, layout))]
            },
            res matches Err(e) ==> is_exchange_error(e),
            read_started(old(self).sent_reports(), final(self).sent_reports()),
            refused_answer(old(self).received_lengths(), final(self).received_lengths(), final(self).received_reports())
                matches Some(e) ==> (res matches Err(x) && x == e),
    {
        let mut profile = match self.runtime_profile_with_wait(wait) {
            Ok(p) => p,
            Err(e) => return Err(e),
        };
        let ghost image = profile@;
        profile.set_primary_button_layout(layout);
        let ghost mid = self.sent@;
        let written = self.write_runtime_profile(&profile);
        proof {
            lemma_read_started_push(old(self).sent@, mid, write_report_of(profile@));
        }
        if let Err(e) = written {
            return Err(e);
        }
        assert(self.received@.drop_last() =~= old(self).received@);
        assert(self.sent@ =~= old(self).sent@ + runtime_read_reports() + seq![
            write_report_of(with_primary_layout(image, layout)),
        ]);
        Ok(layout)
    }

    /// Change the polling rate in the runtime profile only.
    pub fn set_runtime_polling_rate_with_wait<W: FnMut(u64)>(&mut self, polling_rate: PollingRate, wait: W) -> (res: Result<
        PollingRate,
        PulsefireRaidError,
    >)
        requires
            forall|ms: u64| call_requires(wait, (ms,)),
        ensures
            res matches Ok(r) ==> {
                let image = final(self).received_reports().last();
                &&& r == polling_rate
                &&& one_more(old(self).received_reports(), final(self).received_reports())
                &&& runtime_image(image)
                &&& final(self).sent_reports() == old(self).sent_reports() + runtime_read_reports()
                    + seq![write_report_of(image.update(0x18, polling_code(polling_rate)))]
            },
            res matches Err(e) ==> is_exchange_error(e),
            read_started(old(self).sent_reports(), final(self).sent_reports()),
            refused_answer(old(self).received_lengths(), final(self).received_lengths(), final(self).received_reports())
                matches Some(e) ==> (res matches Err(x) && x == e),
    {
        let mut profile = match self.runtime_profile_with_wait(wait) {
            Ok(p) => p,
            Err(e) => return Err(e),
        };
        let ghost image = profile@;
        profile.set_polling_rate(polling_rate);
        let ghost mid = self.sent@;
        let written = self.write_runtime_profile(&profile);
        proof {
            lemma_read_started_push(old(self).sent@, mid, write_report_of(profile@));
        }
        if let Err(e) = written {
            return Err(e);
        }
        assert(self.received@.drop_last() =~= old(self).received@);
        assert(self.sent@ =~= old(self).sent@ + runtime_read_reports() + seq![
            write_report_of(image.update(0x18, polling_code(polling_rate))),
        ]);
        Ok(polling_rate)
    }
    /// Send one save-stage feature report and check the acknowledgement the
    /// device answers with on the acknowledgement collection. An unexpected
    /// answer is an error; nothing is retried.
    fn send_feature_report_with_save_ack<A: HidTransport>(&mut self, acknowledgements: &mut A, report: &[u8]) -> (res:
        Result<(), PulsefireRaidError>)
        requires
            report@.len() >= 2,
        ensures
            final(self).sent_reports() == old(self).sent_reports().push(report@),
            final(self).received_reports() == old(self).received_reports(),
            final(self).received_lengths() == old(self).received_lengths(),
            ack_step(old(self).received_acknowledgements(), final(self).received_acknowledgements(), report@, res),
    {
        if let Err(e) = self.send_feature_report(report) {
            return Err(e);
        }
        let opcode = report[1];
        let mut actual = [0u8; 8];
        let length = match acknowledgements.read_timeout(&mut actual, SAVE_ACK_TIMEOUT_MS) {
            Ok(n) => n,
            Err(e) => return Err(PulsefireRaidError::Transport(e)),
        };
        proof {
            self.acks@ = self.acks@.push((length, actual@));
            assert(self.acks@.drop_last() =~= old(self).acks@);
        }
        check_save_acknowledgement(opcode, length, &actual)
    }

    /// Select the onboard section, send the Solid lighting snapshot and
    /// request the onboard profile, each report acknowledged.
    fn open_onboard_read<A: HidTransport>(
        &mut self,
        acknowledgements: &mut A,
        wheel: RgbColor,
        logo: RgbColor,
        Ghost(sent_before): Ghost<Seq<Seq<u8>>>,
        Ghost(acks_before): Ghost<Seq<(usize, Seq<u8>)>>,
    ) -> (res: Result<(), PulsefireRaidError>)
        requires
            acknowledged_since(sent_before, acks_before, old(self).sent_reports(), old(self).received_acknowledgements()),
        ensures
            res is Ok ==> final(self).sent_reports() == old(self).sent_reports() + onboard_read_reports(wheel, logo),
            res is Ok ==> acknowledged_since(sent_before, acks_before, final(self).sent_reports(), final(self).received_acknowledgements()),
            res matches Err(e) ==> is_link_error(e) && ack_outcome_since(
                sent_before,
                acks_before,
                final(self).sent_reports(),
                final(self).received_acknowledgements(),
                e,
            ),
            final(self).received_reports() == old(self).received_reports(),
            final(self).received_lengths() == old(self).received_lengths(),
    {
        let prelude = encode_onboard_profile_read_prelude();
        let ghost sent_now = self.sent@;
        let ghost acks_now = self.acks@;
        let r = self.send_feature_report_with_save_ack(acknowledgements, &prelude);
        proof {
            lemma_ack_step(sent_before, acks_before, sent_now, acks_now, prelude@, self.acks@, r);
        }
        if let Err(e) = r {
            return Err(e);
        }
        let lighting = encode_onboard_static_lighting_reports(wheel, logo);
        let first = lighting[0];
        let second = lighting[1];
        let third = lighting[2];
        assert(first@ == onboard_lighting_report(0, wheel, logo));
        assert(second@ == onboard_lighting_report(1, wheel, logo));
        assert(third@ == onboard_lighting_report(2, wheel, logo));
        let ghost sent_now = self.sent@;
        let ghost acks_now = self.acks@;
        let r = self.send_feature_report_with_save_ack(acknowledgements, &first);
        proof {
            lemma_ack_step(sent_before, acks_before, sent_now, acks_now, first@, self.acks@, r);
        }
        if let Err(e) = r {
            return Err(e);
        }
        let ghost sent_now = self.sent@;
        let ghost acks_now = self.acks@;
        let r = self.send_feature_report_with_save_ack(acknowledgements, &second);
        proof {
            lemma_ack_step(sent_before, acks_before, sent_now, acks_now, second@, self.acks@, r);
        }
        if let Err(e) = r {
            return Err(e);
        }
        let ghost sent_now = self.sent@;
        let ghost acks_now = self.acks@;
        let r = self.send_feature_report_with_save_ack(acknowledgements, &third);
        proof {
            lemma_ack_step(sent_before, acks_before, sent_now, acks_now, third@, self.acks@, r);
        }
        if let Err(e) = r {
            return Err(e);
        }
        let request = encode_profile_read_request();
        let ghost sent_now = self.sent@;
        let ghost acks_now = self.acks@;
        let r = self.send_feature_report_with_save_ack(acknowledgements, &request);
        proof {
            lemma_ack_step(sent_before, acks_before, sent_now, acks_now, request@, self.acks@, r);
        }
        if let Err(e) = r {
            return Err(e);
        }
        assert(self.sent@ =~= old(self).sent@ + onboard_read_reports(wheel, logo));
        Ok(())
    }

    /// Send the onboard macro definition if there is one, write the patched
    /// onboard image, wait for the commit and select the runtime section
    /// again, each report acknowledged.
    fn commit_onboard<A: HidTransport, W: FnMut(u64)>(
        &mut self,
        acknowledgements: &mut A,
        image: &PerformanceProfile,
        macro_report: Option<&PulsefireRaidMacro>,
        wait: W,
        Ghost(sent_before): Ghost<Seq<Seq<u8>>>,
        Ghost(acks_before): Ghost<Seq<(usize, Seq<u8>)>>,
    ) -> (res: Result<(), PulsefireRaidError>)
        requires
            forall|ms: u64| call_requires(wait, (ms,)),
            acknowledged_since(sent_before, acks_before, old(self).sent_reports(), old(self).received_acknowledgements()),
        ensures
            res is Ok ==> final(self).sent_reports() == old(self).sent_reports() + match macro_report {
                Some(m) => seq![m@.update(2, 0x01)],
                None => Seq::<Seq<u8>>::empty(),
            } + seq![write_report_of(image@), prelude_report()],
            res is Ok ==> acknowledged_since(sent_before, acks_before, final(self).sent_reports(), final(self).received_acknowledgements()),
            res matches Err(e) ==> is_link_error(e) && ack_outcome_since(
                sent_before,
                acks_before,
                final(self).sent_reports(),
                final(self).received_acknowledgements(),
                e,
            ),
            final(self).received_reports() == old(self).received_reports(),
            final(self).received_lengths() == old(self).received_lengths(),
    {
        let mut wait = wait;
        proof {
            image.lemma_len();
        }
        let ghost start = self.sent@;
        if let Some(m) = macro_report {
            let report = m.to_onboard_report();
            let ghost sent_now = self.sent@;
            let ghost acks_now = self.acks@;
            let r = self.send_feature_report_with_save_ack(acknowledgements, &report);
            proof {
                lemma_ack_step(sent_before, acks_before, sent_now, acks_now, report@, self.acks@, r);
            }
            if let Err(e) = r {
                return Err(e);
            }
        }
        let ghost mid = self.sent@;
        let write = image.to_write_report();
        let ghost sent_now = self.sent@;
        let ghost acks_now = self.acks@;
        let r = self.send_feature_report_with_save_ack(acknowledgements, &write);
        proof {
            lemma_ack_step(sent_before, acks_before, sent_now, acks_now, write@, self.acks@, r);
        }
        if let Err(e) = r {
            return Err(e);
        }
        wait(ONBOARD_COMMIT_DELAY_MS);
        let prelude = encode_runtime_profile_read_prelude();
        let ghost sent_now = self.sent@;
        let ghost acks_now = self.acks@;
        let r = self.send_feature_report_with_save_ack(acknowledgements, &prelude);
        proof {
            lemma_ack_step(sent_before, acks_before, sent_now, acks_now, prelude@, self.acks@, r);
        }
        if let Err(e) = r {
            return Err(e);
        }
        assert(self.sent@ =~= mid + seq![write_report_of(image@), prelude_report()]);
        assert(mid =~= start + match macro_report {
            Some(m) => seq![m@.update(2, 0x01)],
            None => Seq::<Seq<u8>>::empty(),
        });
        Ok(())
    }

    /// Save the confirmed runtime DPI, polling and button settings to the
    /// onboard profile, with the Solid `wheel` and `logo` snapshot.
    ///
    /// The acknowledgements are read through `acknowledgements`, which must be
    /// HID interface 2. The runtime profile is read and validated before the
    /// onboard section is selected; the onboard image is read and only its
    /// confirmed settings are replaced. A Button 5 macro reference needs its
    /// definition, since the profile holds no macro events. Every report is
    /// acknowledged, and nothing is retried.
    pub fn save_runtime_to_onboard_with_wait<A: HidTransport, W: FnMut(u64)>(
        &mut self,
        acknowledgements: &mut A,
        wheel: RgbColor,
        logo: RgbColor,
        macro_definition: Option<&MacroDefinition>,
        wait: W,
    ) -> (res: Result<PulsefireRaidOnboardSaveResult, PulsefireRaidError>)
        requires
            forall|ms: u64| call_requires(wait, (ms,)),
        ensures
            old(acknowledgements).spec_interface_number() != 2 ==> res == Err::<
                PulsefireRaidOnboardSaveResult,
                PulsefireRaidError,
            >(PulsefireRaidError::WrongAcknowledgementInterface(old(acknowledgements).spec_interface_number()))
                && final(self).sent_reports() == old(self).sent_reports(),
            old(acknowledgements).spec_interface_number() == 2 ==> (macro_definition matches Some(d) ==> (
            !definition_encodable(PulsefireRaidControl::Button5, *d) ==> (res matches Err(e) && is_definition_error(
                PulsefireRaidControl::Button5,
                *d,
                e,
            ) && final(self).sent_reports() == old(self).sent_reports()))),
            final(self).received_lengths().len() == old(self).received_lengths().len() ==> res is Err
                && final(self).received_reports() == old(self).received_reports(),
            final(self).received_lengths().len() != old(self).received_lengths().len() ==> save_outcome(
                old(self).sent_reports(),
                old(self).received_lengths().len() as int,
                old(self).received_reports().len() as int,
                final(self).sent_reports(),
                final(self).received_lengths(),
                final(self).received_reports(),
                wheel,
                logo,
                given_definition(macro_definition),
                res,
            ),
            res is Ok ==> acknowledged_since(
                old(self).sent_reports(),
                old(self).received_acknowledgements(),
                final(self).sent_reports(),
                final(self).received_acknowledgements(),
            ),
            res matches Err(e) ==> ack_outcome_since(
                old(self).sent_reports(),
                old(self).received_acknowledgements(),
                final(self).sent_reports(),
                final(self).received_acknowledgements(),
                e,
            ),
    {
        let mut wait = wait;
        let interface = acknowledgements.interface_number();
        if interface != 2 {
            return Err(PulsefireRaidError::WrongAcknowledgementInterface(interface));
        }
        let macro_report = match macro_definition {
            Some(d) => match encode_macro_definition(PulsefireRaidControl::Button5, d) {
                Ok(m) => Some(m),
                Err(e) => return Err(e),
            },
            None => None,
        };
        let ghost s0 = self.sent@;
        let ghost a0 = self.acks@;
        let ghost n = self.lengths@.len() as int;
        let ghost m0 = self.received@.len() as int;
        assert(acknowledged_since(s0, a0, s0, a0)) by {
            assert(s0.skip(s0.len() as int) =~= Seq::<Seq<u8>>::empty());
            assert(a0.skip(a0.len() as int) =~= Seq::<(usize, Seq<u8>)>::empty());
        }
        let prelude = encode_runtime_profile_read_prelude();
        let r = self.send_feature_report_with_save_ack(acknowledgements, &prelude);
        proof {
            lemma_ack_step(s0, a0, s0, a0, prelude@, self.acks@, r);
        }
        if let Err(e) = r {
            return Err(e);
        }
        let request = encode_profile_read_request();
        let ghost sent_now = self.sent@;
        let ghost acks_now = self.acks@;
        let r = self.send_feature_report_with_save_ack(acknowledgements, &request);
        proof {
            lemma_ack_step(s0, a0, sent_now, acks_now, request@, self.acks@, r);
        }
        if let Err(e) = r {
            return Err(e);
        }
        assert(self.sent@ =~= s0 + runtime_read_reports());
        wait(PROFILE_READ_DELAY_MS);
        let runtime = match self.read_profile_response(ProfileSection::Runtime) {
            Ok(p) => p,
            Err(e) => return Err(e),
        };
        let ghost rt = runtime@;
        assert(self.received@[m0] == rt);
        if let Err(e) = runtime.validate_confirmed_runtime_settings() {
            return Err(PulsefireRaidError::InvalidProfile(e));
        }
        let referenced = runtime.has_confirmed_macro_reference(PulsefireRaidControl::Button5);
        if referenced && macro_report.is_none() {
            return Err(PulsefireRaidError::MissingOnboardMacroDefinition);
        }
        if !referenced && macro_report.is_some() {
            return Err(PulsefireRaidError::UnexpectedOnboardMacroDefinition);
        }
        let polling_rate = match runtime.polling_rate() {
            Ok(p) => p,
            Err(e) => return Err(PulsefireRaidError::InvalidProfile(e)),
        };
        let dpi_profile = match runtime.dpi_profile() {
            Ok(p) => p,
            Err(e) => return Err(PulsefireRaidError::InvalidProfile(e)),
        };
        let ghost s1 = self.sent@;
        if let Err(e) = self.open_onboard_read(acknowledgements, wheel, logo, Ghost(s0), Ghost(a0)) {
            return Err(e);
        }
        wait(PROFILE_READ_DELAY_MS);
        let ghost l1 = self.lengths@;
        let ghost r1 = self.received@;
        let onboard_read = self.read_profile_response(ProfileSection::Onboard);
        proof {
            if self.lengths@.len() != l1.len() {
                assert(self.lengths@[n] == l1[n]);
                assert(self.received@[m0] == self.received@.drop_last()[m0]);
                assert(self.received@[m0] == rt);
            }
            assert(self.sent@ =~= s0 + runtime_read_reports() + onboard_read_reports(wheel, logo));
        }
        let mut onboard = match onboard_read {
            Ok(p) => p,
            Err(e) => return Err(e),
        };
        let ghost ob = onboard@;
        assert(self.received@[m0 + 1] == ob);
        assert(self.received@[m0] == rt);
        if let Err(e) = onboard.copy_confirmed_runtime_settings_from(&runtime) {
            return Err(PulsefireRaidError::InvalidProfile(e));
        }
        let ghost s2 = self.sent@;
        let saved = macro_report.is_some();
        if let Err(e) = self.commit_onboard(acknowledgements, &onboard, macro_report.as_ref(), wait, Ghost(s0), Ghost(a0)) {
            return Err(e);
        }
        proof {
            let definition = given_definition(macro_definition);
            assert(onboard_macro_reports(definition) =~= match macro_report {
                Some(m) => seq![m@.update(2, 0x01)],
                None => Seq::<Seq<u8>>::empty(),
            });
            assert(self.sent@ =~= s0 + runtime_read_reports() + onboard_save_reports(rt, ob, wheel, logo, definition));
        }
        Ok(PulsefireRaidOnboardSaveResult { polling_rate, dpi_profile, macro_saved: saved })
    }
}

} // verus!

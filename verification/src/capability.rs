//! Hardware capability declarations, DPI validation and polling rates.
use vstd::prelude::*;
use crate::button::MacroPlayback;
use crate::text::{chars_eq_str, decimal_chars, push_decimal, str_chars, string_push_str};

verus! {

/// Implemented macro encoding support for one physical control. Runtime and
/// persistent support are independent.
#[derive(Clone, Copy, Debug, PartialEq, Eq)]
pub struct MacroCapabilities {
    pub runtime_playback: &'static [MacroPlayback],
    pub onboard_playback: &'static [MacroPlayback],
    pub max_events: usize,
    pub max_delay_ms: u16,
}

fn slice_contains(modes: &[MacroPlayback], playback: MacroPlayback) -> (found: bool)
    ensures
        found == modes@.contains(playback),
{
    let mut i: usize = 0;
    while i < modes.len()
        invariant
            i <= modes@.len(),
            forall|j: int| 0 <= j < i ==> modes@[j] != playback,
        decreases modes.len() - i,
    {
        if modes[i] == playback {
            assert(modes@[i as int] == playback);
            return true;
        }
        i += 1;
    }
    false
}

impl MacroCapabilities {
    pub fn supports_runtime(self, playback: MacroPlayback) -> (supported: bool)
        ensures
            supported == self.runtime_playback@.contains(playback),
    {
        slice_contains(self.runtime_playback, playback)
    }

    pub fn supports_onboard(self, playback: MacroPlayback) -> (supported: bool)
        ensures
            supported == self.onboard_playback@.contains(playback),
    {
        slice_contains(self.onboard_playback, playback)
    }
}

/// A high-level feature exposed by a device. This says what the hardware is
/// expected to support, not what has been implemented.
#[derive(Clone, Copy, Debug, PartialEq, Eq, Structural)]
pub enum Capability {
    Dpi,
    DpiStages,
    PollingRate,
    ButtonRemapping,
    Macros,
    Lighting,
    OnboardProfile,
}

#[derive(Clone, Copy, Debug, PartialEq, Eq)]
pub struct LightingZone {
    pub id: &'static str,
    pub name: &'static str,
}

#[derive(Clone, Copy, Debug, PartialEq, Eq)]
pub struct CapabilitySet {
    pub features: &'static [Capability],
    pub button_count: u8,
    pub lighting_zones: &'static [LightingZone],
    pub dpi: Option<DpiCapabilities>,
    pub polling_rates: &'static [PollingRate],
}

#[derive(Clone, Copy, Debug, PartialEq, Eq, Structural)]
pub struct DpiCapabilities {
    pub minimum: u32,
    pub maximum: u32,
    pub step: u32,
    pub max_stages: u8,
}

#[derive(Clone, Copy, Debug, PartialEq, Eq, Structural)]
pub enum DpiValidationError {
    OutOfRange { dpi: u32, minimum: u32, maximum: u32 },
    NotStepAligned { dpi: u32, minimum: u32, step: u32 },
}

/// The outcome of validating `dpi` against `caps`.
pub open spec fn validate_dpi_spec(caps: DpiCapabilities, dpi: u32) -> Result<u32, DpiValidationError> {
    if dpi < caps.minimum || dpi > caps.maximum {
        Err(DpiValidationError::OutOfRange { dpi, minimum: caps.minimum, maximum: caps.maximum })
    } else if caps.step == 0 || (dpi - caps.minimum) % (caps.step as int) != 0 {
        Err(DpiValidationError::NotStepAligned { dpi, minimum: caps.minimum, step: caps.step })
    } else {
        Ok(dpi)
    }
}

impl DpiCapabilities {
    /// Accept `dpi` when it lies in range and on the step grid from `minimum`.
    pub fn validate(self, dpi: u32) -> (res: Result<u32, DpiValidationError>)
        ensures
            res == validate_dpi_spec(self, dpi),
    {
        if dpi < self.minimum || dpi > self.maximum {
            return Err(
                DpiValidationError::OutOfRange {
                    dpi,
                    minimum: self.minimum,
                    maximum: self.maximum,
                },
            );
        }
        if self.step == 0 || (dpi - self.minimum) % self.step != 0 {
            return Err(
                DpiValidationError::NotStepAligned { dpi, minimum: self.minimum, step: self.step },
            );
        }
        Ok(dpi)
    }
}

#[derive(Clone, Copy, Debug, PartialEq, Eq, Structural)]
pub enum PollingRate {
    Hz125,
    Hz250,
    Hz500,
    Hz1000,
}

pub open spec fn polling_hz(rate: PollingRate) -> u16 {
    match rate {
        PollingRate::Hz125 => 125,
        PollingRate::Hz250 => 250,
        PollingRate::Hz500 => 500,
        PollingRate::Hz1000 => 1000,
    }
}

/// The rate named by the exact text `125`, `250`, `500` or `1000`.
pub open spec fn parse_polling_rate_spec(text: Seq<char>) -> Option<PollingRate> {
    if text == "125"@ {
        Some(PollingRate::Hz125)
    } else if text == "250"@ {
        Some(PollingRate::Hz250)
    } else if text == "500"@ {
        Some(PollingRate::Hz500)
    } else if text == "1000"@ {
        Some(PollingRate::Hz1000)
    } else {
        None
    }
}

/// Rejected polling-rate text.
#[derive(Clone, Debug, PartialEq, Eq)]
pub struct PollingRateParseError(pub String);

impl PollingRate {
    pub fn hz(self) -> (hz: u16)
        ensures
            hz == polling_hz(self),
    {
        match self {
            PollingRate::Hz125 => 125,
            PollingRate::Hz250 => 250,
            PollingRate::Hz500 => 500,
            PollingRate::Hz1000 => 1000,
        }
    }

    /// Parse one of the four supported rates written in Hz.
    pub fn parse(input: &str) -> (res: Result<PollingRate, PollingRateParseError>)
        ensures
            res matches Ok(rate) ==> parse_polling_rate_spec(input@) == Some(rate),
            res matches Err(e) ==> parse_polling_rate_spec(input@) is None && e.0@ == input@,
    {
        let text = str_chars(input);
        if chars_eq_str(&text, "125") {
            Ok(PollingRate::Hz125)
        } else if chars_eq_str(&text, "250") {
            Ok(PollingRate::Hz250)
        } else if chars_eq_str(&text, "500") {
            Ok(PollingRate::Hz500)
        } else if chars_eq_str(&text, "1000") {
            Ok(PollingRate::Hz1000)
        } else {
            Err(PollingRateParseError(input.to_owned()))
        }
    }

    /// The rate in Hz as decimal text.
    pub fn to_string(&self) -> (text: String)
        ensures
            text@ == decimal_chars(polling_hz(*self) as nat),
    {
        let mut text = String::new();
        push_decimal(&mut text, self.hz() as u64);
        text
    }
}

impl std::str::FromStr for PollingRate {
    type Err = PollingRateParseError;

    /// The same as `PollingRate::parse`.
    fn from_str(input: &str) -> (res: Result<Self, Self::Err>)
        ensures
            res matches Ok(rate) ==> parse_polling_rate_spec(input@) == Some(rate),
            res matches Err(e) ==> parse_polling_rate_spec(input@) is None && e.0@ == input@,
    {
        PollingRate::parse(input)
    }
}


/// The message of a DPI validation error.
pub open spec fn dpi_error_text(e: DpiValidationError) -> Seq<char> {
    match e {
        DpiValidationError::OutOfRange { dpi, minimum, maximum } => "DPI "@ + decimal_chars(dpi as nat)
            + " is outside the supported range "@ + decimal_chars(minimum as nat) + "..="@
            + decimal_chars(maximum as nat),
        DpiValidationError::NotStepAligned { dpi, minimum, step } => "DPI "@ + decimal_chars(dpi as nat)
            + " must use step "@ + decimal_chars(step as nat) + " starting at "@ + decimal_chars(
            minimum as nat,
        ),
    }
}

impl DpiValidationError {
    pub fn to_string(&self) -> (text: String)
        ensures
            text@ == dpi_error_text(*self),
    {
        let mut text = String::new();
        match self {
            DpiValidationError::OutOfRange { dpi, minimum, maximum } => {
                string_push_str(&mut text, "DPI ");
                push_decimal(&mut text, *dpi as u64);
                string_push_str(&mut text, " is outside the supported range ");
                push_decimal(&mut text, *minimum as u64);
                string_push_str(&mut text, "..=");
                push_decimal(&mut text, *maximum as u64);
            },
            DpiValidationError::NotStepAligned { dpi, minimum, step } => {
                string_push_str(&mut text, "DPI ");
                push_decimal(&mut text, *dpi as u64);
                string_push_str(&mut text, " must use step ");
                push_decimal(&mut text, *step as u64);
                string_push_str(&mut text, " starting at ");
                push_decimal(&mut text, *minimum as u64);
            },
        }
        text
    }
}

impl PollingRateParseError {
    pub fn to_string(&self) -> (text: String)
        ensures
            text@ == "polling rate must be one of: 125, 250, 500, 1000 Hz; got "@ + self.0@,
    {
        let mut text = String::new();
        string_push_str(&mut text, "polling rate must be one of: 125, 250, 500, 1000 Hz; got ");
        string_push_str(&mut text, self.0.as_str());
        text
    }
}

} // verus!

//! Portable application profiles.
//!
//! A profile may be partial when it was imported from a format whose fields
//! are not completely understood. Loading a profile never implies permission
//! to write it to a device or to onboard memory.
use vstd::prelude::*;
use crate::button::MacroDefinition;
use crate::performance::DpiStage;

verus! {

/// A portable application profile.
#[derive(Clone, Debug, PartialEq, Eq)]
pub struct SoftwareProfile {
    pub name: String,
    pub device: String,
    pub partial: bool,
    pub source: Option<SoftwareProfileSource>,
    pub dpi: Option<SoftwareDpiProfile>,
    pub macros: Vec<NamedMacro>,
    pub unresolved_button_assignments: Vec<UnresolvedButtonAssignment>,
}

/// DPI data in a portable software profile. `source_active_stage` keeps an
/// imported value whose indexing is not confirmed.
#[derive(Clone, Debug, PartialEq, Eq)]
pub struct SoftwareDpiProfile {
    pub stages: Vec<DpiStage>,
    pub active_stage: Option<usize>,
    pub source_active_stage: Option<u32>,
}

/// Provenance retained when a portable profile was imported.
#[derive(Clone, Debug, PartialEq, Eq)]
pub struct SoftwareProfileSource {
    pub format: String,
    pub format_version: u32,
}

/// A named macro stored in a software profile.
#[derive(Clone, Debug, PartialEq, Eq)]
pub struct NamedMacro {
    pub source_id: String,
    pub name: String,
    pub definition: MacroDefinition,
}

/// Source assignment retained until its physical control is decoded.
#[derive(Clone, Debug, PartialEq, Eq)]
pub struct UnresolvedButtonAssignment {
    pub source_id: String,
    pub macro_source_id: Option<String>,
}

} // verus!

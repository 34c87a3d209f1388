//! DPI stages and profiles.
use vstd::prelude::*;
use crate::color::RgbColor;

verus! {

/// One DPI level exposed by a device profile.
#[derive(Clone, Copy, Debug, PartialEq, Eq, Structural)]
pub struct DpiStage {
    pub x: u32,
    pub y: u32,
    pub color: RgbColor,
}

impl DpiStage {
    pub fn new(x: u32, y: u32, color: RgbColor) -> (stage: Self)
        ensures
            stage == (DpiStage { x, y, color }),
    {
        DpiStage { x, y, color }
    }
}

/// Enabled DPI levels and the zero-based index of the active level.
#[derive(Clone, Debug, PartialEq, Eq)]
pub struct DpiProfile {
    pub stages: Vec<DpiStage>,
    pub active_stage: usize,
}

impl DpiProfile {
    /// The active stage, if the index names one.
    pub fn active(&self) -> (stage: Option<&DpiStage>)
        ensures
            self.active_stage < self.stages@.len() ==> stage == Some(&self.stages@[self.active_stage as int]),
            self.active_stage >= self.stages@.len() ==> stage is None,
    {
        if self.active_stage < self.stages.len() {
            Some(&self.stages[self.active_stage])
        } else {
            None
        }
    }
}

} // verus!

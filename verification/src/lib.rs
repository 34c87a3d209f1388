//! Verified model, codecs and driver logic for HyperX mice.
pub mod button;
pub mod capability;
pub mod color;
pub mod device;
pub mod performance;
pub mod profile;
pub mod text;
pub mod pulsefire_raid;
pub mod profile_laws;
pub mod profile_text;
pub mod ngenuity;
pub mod ngenuity_diff;
pub mod text_laws;
pub mod diff_laws;
pub mod lighting;
pub mod foreground;
pub mod hid_descriptor;
pub mod wire;
pub mod capture;
pub mod hid;
pub mod registry;
pub mod raid_macro;
pub mod driver;
pub mod cli;
pub mod reports;
pub mod discovery_report;
pub mod error_text;
pub mod driver_laws;
pub mod capture_laws;
pub mod import_laws;

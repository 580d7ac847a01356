//! Verified core of a ham-radio logging application: Maidenhead grid
//! conversions, map tile arithmetic, PSKReporter queries, callsign lookup
//! normalisation and contact-table state.

pub mod types;
pub mod text;
pub mod maidenhead;
pub mod map;
pub mod tile_cache;
pub mod pskreporter;
pub mod dates;
pub mod callsign_text;
pub mod tabs;
pub mod callsign_lookup;
pub mod database;
pub mod gui;
pub mod frame;
pub mod settings;

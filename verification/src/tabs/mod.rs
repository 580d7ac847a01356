//! The logic behind the application's tabs.

pub mod callsign_lookup;
pub mod contacts;
pub mod band_allocations;
pub mod contact_logger;

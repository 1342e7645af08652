//! Scheduling and classification core of an ambient weather dashboard.
//!
//! The crate decides when each data category of the dashboard is refreshed,
//! keeps the sparse air-quality refresh from firing more than once per
//! trigger hour, and derives what the display shows (gradient, condition
//! label, icon, air-quality status) from raw readings.

pub mod air_quality;
pub mod text;
pub mod clock;
pub mod phase;
pub mod gradient;
pub mod condition;
pub mod gateway;
pub mod display;
pub mod scheduler;

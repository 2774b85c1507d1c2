//! Hourly electricity price dashboard library.
//!
//! Price documents fetched from a remote store are flattened into an ordered
//! series of hourly sub-unit prices; statistics and the console summary lines
//! are computed over that series.

pub mod clock;
pub mod fetch;
pub mod layout;
pub mod model;
pub mod stats;
pub mod text;

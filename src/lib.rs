//! Battery watch: decides, on a fixed cadence, whether a laptop running on
//! battery has so little runtime left that the user must be warned.
//!
//! The library holds the decisions; the program around it performs the power
//! queries, shows the notifications and sleeps between ticks.

pub mod decimal;
pub mod config;
pub mod job;
pub mod schedule;

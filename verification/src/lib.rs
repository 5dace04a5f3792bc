//! Game rules of a small space shooter whose ships move by dead reckoning:
//! pilot input handling, clock offsets, weapon cooldowns, hit claims,
//! sector travel and visibility, station economics and cargo accounting.
//! The floating-point flight model itself lives with the application.

pub mod table;
pub mod input;
pub mod identity;
pub mod clock;
pub mod stations;
pub mod ships;
pub mod combat;
pub mod world;
pub mod stellar;
pub mod roster;
pub mod motion;
pub mod client;
pub mod commands;

//! Four minimal deployable program units — escrow, points, quests and
//! registry — each declaring a fixed identifier and exposing a single
//! `initialize` entry point that emits one diagnostic line and succeeds.

pub mod escrow;
pub mod invocation;
pub mod log;
pub mod points;
pub mod quests;
pub mod registry;
pub mod runtime;
pub mod unit;

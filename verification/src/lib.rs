//! An activity-scheduling engine for a "what should I work on next" tool.
//!
//! The engine tracks what the user is currently doing (nothing, working a
//! task, or taking a break), rolls a die to pick the next activity and its
//! duration, weights the task pick by urgency, and stages deferred external
//! commands for a driver to run outside the live display.

pub mod activity;
pub mod engine;
pub mod error;
pub mod select;
pub mod task;
pub mod taskwarrior;
pub mod time;

//! Decision logic for a tool that asks a long-running host to load a script,
//! once or whenever watched files change.
//!
//! The crate holds every rule of the tool as verified, side-effect-free code:
//! validating the configuration, encoding the load command, coalescing bursts
//! of file-system events into triggers, and driving the dispatch loop. The
//! program around it only performs the actions that the dispatcher asks for
//! and reports back what happened.

pub mod config;
pub mod delivery;
pub mod dispatch;
pub mod encoder;
pub mod filter;
pub mod watch;

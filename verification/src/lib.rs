//! A verified core for a terminal host dashboard.
//!
//! The library holds everything the dashboard decides or formats: the
//! panel renderers (memory, uptime, pending updates, watched programs,
//! task-queue pass-through), the layout arithmetic that stacks the five
//! panels, and the tick/quit state machine of the main loop. Reading the
//! host goes through a small set of trusted wrappers around `sysinfo`;
//! the terminal itself is driven by an unverified front end.

pub mod host;
pub mod layout;
pub mod panels;
pub mod text;
pub mod ticker;
pub mod updates;
pub mod uptime;

//! Supervision of a single external worker process: a store of at most one
//! process handle with a running flag, the start/stop/status transitions over
//! it, the tray-menu control surface that drives them, and the log-folder
//! path they report. The host shell performs the outside work — spawning,
//! killing, rendering, the event loop — and hands each outcome back to the
//! library, whose transitions are verified for every outcome.

pub mod control;
pub mod logs;
pub mod supervisor;

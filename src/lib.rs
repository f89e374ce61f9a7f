//! Launch, readiness detection and bounded-lifetime termination of a REAPER
//! instance, optionally under a virtual display.
//!
//! The library holds the decisions; a driver performs the process work that
//! each [`supervisor::Action`] names and reports back an [`supervisor::Event`].
pub mod cli;
pub mod error;
pub mod launch;
pub mod laws;
pub mod platform;
pub mod plugin;
pub mod request;
pub mod resolve;
pub mod supervisor;

//! Provisioning and teardown engine of an endpoint management agent.
//!
//! The library holds the decisions: which commands to run, in which order,
//! and what the outcome of a run is. The caller performs the I/O that each
//! decision asks for and hands the result back.
pub mod config;
pub mod dmg;
pub mod model;
pub mod paths;
pub mod preferences;
pub mod session;
pub mod text;
pub mod uninstall;

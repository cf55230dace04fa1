//! Launcher logic for the mhr-cfw VPN client: where things live, finding a
//! usable Python, the capped log of the VPN process, the window and the
//! worker as state machines, the credentials store and the failure report,
//! each with its contract.

pub mod text;
pub mod paths;
pub mod config;
pub mod credentials;
pub mod python;
pub mod runner;
pub mod gui;
pub mod worker;
pub mod report;
pub mod download;
pub mod project;

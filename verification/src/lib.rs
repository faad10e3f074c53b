//! Lifecycle core of a Wi-Fi environmental sensor node.
//!
//! The node joins a wireless network, asks a server for its operating
//! configuration and falls back to built-in defaults when it gets none, sets
//! its clock, and then reports for ever: it checks its link, sends a
//! heartbeat, samples its sensors, submits the readings and sleeps.
//!
//! This crate holds what is decided on that way, and nothing that touches
//! hardware. [`service::orchestrator_service::orchestrate`] is one turn of the
//! lifecycle: it takes the state and the outcome of the last action and gives
//! the next state and the next action. The firmware performs the actions.
//! What every run of the lifecycle obeys is proved in
//! [`service::orchestrator_laws`].

pub mod config;
pub mod dto;
pub mod service;
pub mod util;

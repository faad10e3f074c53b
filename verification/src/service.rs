//! The services of the device: what they decide, without the hardware.

pub mod client_service;
pub mod orchestrator_laws;
pub mod orchestrator_service;
pub mod peripheral_service;

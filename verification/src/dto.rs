//! The values exchanged with the server.

pub mod config_request;
pub mod config_response;
pub mod register_device;
pub mod request_i_am_alive;
pub mod request_submit;

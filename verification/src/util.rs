//! Small helpers.

pub mod thread_util;

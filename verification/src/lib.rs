//! A CAN command broker for ODrive motor controllers.
//!
//! The crate maps typed device commands to and from raw CAN bus frames,
//! multiplexes requests from many caller threads over the one bus handle,
//! and correlates asynchronous bus responses back to the callers that are
//! waiting for them.

pub mod axis;
pub mod canproxy;
pub mod cansocket;
pub mod channels;
pub mod commands;
pub mod gamepad;
pub mod keyboard;
pub mod messages;
pub mod odrivegroup;
pub mod response;
pub mod threads;
pub mod utils;

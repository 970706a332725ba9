//! The shapes of the documents exchanged with the device.

pub mod request;
pub mod response;

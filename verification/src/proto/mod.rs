//! The vocabulary that the daemon and its clients share.

pub mod action;
pub mod clock;
pub mod debug;
pub mod protocol;
pub mod sensor_event;

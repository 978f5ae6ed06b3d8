//! The daemon: sensing, deciding, responding, and the control socket's rules.

pub mod config;
pub mod config_store;
pub mod control;
pub mod daemon;
pub mod device_table;
pub mod policy;
pub mod responder;
pub mod sensor;
pub mod supervisor;

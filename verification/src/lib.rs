//! Detection, decision and response for a USB kill switch.
//!
//! A sensor reports device changes, the policy engine decides whether a change
//! is a kill, and responders carry the kill out. This crate holds the parts of
//! the daemon, of its control client and of its terminal interface that decide
//! something; sockets, threads, files and the terminal stay with the programs
//! that embed it.

pub mod killbillctl;
pub mod killbilld;
pub mod proto;
pub mod text;
pub mod tui;

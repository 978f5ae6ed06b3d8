//! The terminal UI.

pub mod app;
pub mod client;
pub mod input;
pub mod laws;
pub mod outcomes;
pub mod reduce;
pub mod state;
pub mod theme;
pub mod ui;

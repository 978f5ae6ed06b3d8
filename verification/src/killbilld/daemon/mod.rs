//! The daemon's core: one authority over config, armed state, devices and subscribers.
//!
//! Every piece of mutable daemon state lives in [`state::Core`]. Messages reach it one
//! at a time, and each gives the state after it and the effects that the program
//! carries out, in order. The kill always comes first among the effects.

pub mod authority;
pub mod journal;
pub mod laws;
pub mod lifecycle;
pub mod outcomes;
pub mod records;
pub mod startup;
pub mod state;
pub mod step;
pub mod tracker;

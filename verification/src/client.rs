//! The tunnel client: the state it keeps across connections and its
//! reaction to frames, to commands and to the fate of its link.

pub mod state;
pub mod actions;
pub mod agent;
pub mod commands;
pub mod relay;
pub mod invariants;

//! The relay server: its registries and the routing of frames between the
//! two ends of each tunnel.

pub mod state;
pub mod handlers;
pub mod invariants;
pub mod api;

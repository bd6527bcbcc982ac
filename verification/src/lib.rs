//! A WebSocket-carried TCP tunnel relay, as a verified library.
//!
//! A controller behind one NAT reaches a TCP service near an agent behind
//! another NAT through a relay server that both can reach. This crate holds
//! the decisions of the three parties: the server's routing over its
//! registries, the client's reaction to each frame and to the loss of its
//! link, and the per-stream bridge between TCP chunks and `Data` frames.
//! Sockets, queues, timers and the JSON text of the frames belong to the
//! program around the library, which performs the actions the library
//! returns.

pub mod text;
pub mod table;
pub mod ids;
pub mod payload;
pub mod protocol;
pub mod server;
pub mod client;

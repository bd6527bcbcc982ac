//! The frames exchanged between clients and the relay server.
//!
//! On the wire every frame is a JSON object whose `"type"` field names the
//! variant in snake case; the program around the library turns text into
//! `WsMessage` values and back.

use vstd::prelude::*;
use crate::text::copy_of;

verus! {

/// One frame of the tunnel protocol.
#[derive(Debug, PartialEq, Eq)]
pub enum WsMessage {
    /// A client asks to be registered as an agent.
    Register,
    /// The server's answer to `Register`, with the identifier it assigned.
    RegisterOk { agent_id: String },
    /// A controller asks for a tunnel to `target_id`.
    Connect { target_id: String, remote_host: String, remote_port: u16 },
    /// The server tells the target agent which address the tunnel leads to.
    TunnelRequest { session_id: String, remote_host: String, remote_port: u16 },
    /// The agent accepts the tunnel.
    TunnelAccept { session_id: String },
    /// The server tells the controller that the tunnel stands.
    TunnelReady { session_id: String },
    /// Either side, or the server, tears the tunnel down.
    TunnelClose { session_id: String },
    /// A new TCP connection inside the tunnel.
    StreamOpen { session_id: String, stream_id: String },
    /// The end of one TCP connection inside the tunnel.
    StreamClose { session_id: String, stream_id: String },
    /// A chunk of TCP bytes, base64-encoded, sent by the side named in `role`.
    Data { session_id: String, stream_id: String, role: String, payload: String },
    /// Heartbeat request.
    Ping,
    /// Heartbeat answer.
    Pong,
    /// A failure reported by the server to the sender of a request.
    Error { message: String },
}

/// What a frame says: the variant and the characters of its fields.
pub ghost enum Frame {
    Register,
    RegisterOk { agent_id: Seq<char> },
    Connect { target_id: Seq<char>, remote_host: Seq<char>, remote_port: u16 },
    TunnelRequest { session_id: Seq<char>, remote_host: Seq<char>, remote_port: u16 },
    TunnelAccept { session_id: Seq<char> },
    TunnelReady { session_id: Seq<char> },
    TunnelClose { session_id: Seq<char> },
    StreamOpen { session_id: Seq<char>, stream_id: Seq<char> },
    StreamClose { session_id: Seq<char>, stream_id: Seq<char> },
    Data { session_id: Seq<char>, stream_id: Seq<char>, role: Seq<char>, payload: Seq<char> },
    Ping,
    Pong,
    Error { message: Seq<char> },
}

impl View for WsMessage {
    type V = Frame;

    open spec fn view(&self) -> Frame {
        match *self {
            WsMessage::Register => Frame::Register,
            WsMessage::RegisterOk { agent_id } => Frame::RegisterOk { agent_id: agent_id@ },
            WsMessage::Connect { target_id, remote_host, remote_port } => Frame::Connect {
                target_id: target_id@,
                remote_host: remote_host@,
                remote_port,
            },
            WsMessage::TunnelRequest { session_id, remote_host, remote_port } => Frame::TunnelRequest {
                session_id: session_id@,
                remote_host: remote_host@,
                remote_port,
            },
            WsMessage::TunnelAccept { session_id } => Frame::TunnelAccept { session_id: session_id@ },
            WsMessage::TunnelReady { session_id } => Frame::TunnelReady { session_id: session_id@ },
            WsMessage::TunnelClose { session_id } => Frame::TunnelClose { session_id: session_id@ },
            WsMessage::StreamOpen { session_id, stream_id } => Frame::StreamOpen {
                session_id: session_id@,
                stream_id: stream_id@,
            },
            WsMessage::StreamClose { session_id, stream_id } => Frame::StreamClose {
                session_id: session_id@,
                stream_id: stream_id@,
            },
            WsMessage::Data { session_id, stream_id, role, payload } => Frame::Data {
                session_id: session_id@,
                stream_id: stream_id@,
                role: role@,
                payload: payload@,
            },
            WsMessage::Ping => Frame::Ping,
            WsMessage::Pong => Frame::Pong,
            WsMessage::Error { message } => Frame::Error { message: message@ },
        }
    }
}

impl Clone for WsMessage {
    fn clone(&self) -> (r: Self)
        ensures
            r@ == self@,
    {
        match self {
            WsMessage::Register => WsMessage::Register,
            WsMessage::RegisterOk { agent_id } => WsMessage::RegisterOk { agent_id: copy_of(agent_id) },
            WsMessage::Connect { target_id, remote_host, remote_port } => WsMessage::Connect {
                target_id: copy_of(target_id),
                remote_host: copy_of(remote_host),
                remote_port: *remote_port,
            },
            WsMessage::TunnelRequest { session_id, remote_host, remote_port } => WsMessage::TunnelRequest {
                session_id: copy_of(session_id),
                remote_host: copy_of(remote_host),
                remote_port: *remote_port,
            },
            WsMessage::TunnelAccept { session_id } => WsMessage::TunnelAccept { session_id: copy_of(session_id) },
            WsMessage::TunnelReady { session_id } => WsMessage::TunnelReady { session_id: copy_of(session_id) },
            WsMessage::TunnelClose { session_id } => WsMessage::TunnelClose { session_id: copy_of(session_id) },
            WsMessage::StreamOpen { session_id, stream_id } => WsMessage::StreamOpen {
                session_id: copy_of(session_id),
                stream_id: copy_of(stream_id),
            },
            WsMessage::StreamClose { session_id, stream_id } => WsMessage::StreamClose {
                session_id: copy_of(session_id),
                stream_id: copy_of(stream_id),
            },
            WsMessage::Data { session_id, stream_id, role, payload } => WsMessage::Data {
                session_id: copy_of(session_id),
                stream_id: copy_of(stream_id),
                role: copy_of(role),
                payload: copy_of(payload),
            },
            WsMessage::Ping => WsMessage::Ping,
            WsMessage::Pong => WsMessage::Pong,
            WsMessage::Error { message } => WsMessage::Error { message: copy_of(message) },
        }
    }
}

} // verus!

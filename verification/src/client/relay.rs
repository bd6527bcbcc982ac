//! The bridge between one TCP connection and the `Data` frames of one
//! stream.
//!
//! Two directions run side by side: chunks read from TCP become frames for
//! the peer, and bytes from the stream's inbound buffer are written to
//! TCP. When either direction ends the whole stream ends: its buffer is
//! dropped and the peer is told with one `StreamClose`.

use vstd::prelude::*;
use crate::client::actions::{acts, no_actions, then, Act, ClientAction, ClientStep, Notice, UiEvent};
use crate::client::agent::{channel_key, channel_key_of};
use crate::client::state::{AgentState, ClientModel};
use crate::ids::{generate_short_id, is_short_id};
use crate::payload::{base64_decoding, base64_encoding, encode_payload, READ_CHUNK_SIZE};
use crate::protocol::{Frame, WsMessage};
use crate::table::{put, without};
use crate::text::{copy_of, decimal, decimal_text, joined};

verus! {

/// What happens to a stream that is being relayed.
#[derive(Debug, PartialEq, Eq)]
pub enum RelayEvent {
    /// A read from TCP returned these bytes; none means the connection was
    /// closed.
    Chunk(Vec<u8>),
    /// A read from TCP failed.
    ReadFailed,
    /// The inbound buffer yielded these bytes.
    Inbound(Vec<u8>),
    /// The inbound buffer was dropped.
    InboundClosed,
    /// A write to TCP failed.
    WriteFailed,
    /// The outbound queue no longer takes frames.
    QueueClosed,
}

/// What a `RelayEvent` says.
pub ghost enum Happening {
    Chunk(Seq<u8>),
    ReadFailed,
    Inbound(Seq<u8>),
    InboundClosed,
    WriteFailed,
    QueueClosed,
}

impl View for RelayEvent {
    type V = Happening;

    open spec fn view(&self) -> Happening {
        match *self {
            RelayEvent::Chunk(data) => Happening::Chunk(data@),
            RelayEvent::ReadFailed => Happening::ReadFailed,
            RelayEvent::Inbound(data) => Happening::Inbound(data@),
            RelayEvent::InboundClosed => Happening::InboundClosed,
            RelayEvent::WriteFailed => Happening::WriteFailed,
            RelayEvent::QueueClosed => Happening::QueueClosed,
        }
    }
}

/// Whether the stream goes on after the event: it does after a chunk that
/// is not empty and after bytes from the inbound buffer.
pub open spec fn goes_on(event: Happening) -> bool {
    match event {
        Happening::Chunk(data) => data.len() > 0,
        Happening::Inbound(_) => true,
        _ => false,
    }
}

/// The end of a stream: its inbound buffer is dropped, then the peer is
/// told.
pub open spec fn ended(
    pre: ClientModel,
    session_id: Seq<char>,
    stream_id: Seq<char>,
    channel_key: Seq<char>,
) -> ClientStep {
    ClientStep {
        state: ClientModel { data_channels: without(pre.data_channels, channel_key), ..pre },
        actions: seq![
            Act::CloseChannel { channel_key },
            Act::Send(Frame::StreamClose { session_id, stream_id }),
        ],
    }
}

/// What the relay of a stream does when something happens to it.
pub open spec fn relay_step(
    pre: ClientModel,
    session_id: Seq<char>,
    stream_id: Seq<char>,
    channel_key: Seq<char>,
    role: Seq<char>,
    event: Happening,
) -> ClientStep {
    match event {
        Happening::Chunk(data) => if data.len() > 0 {
            ClientStep {
                state: pre,
                actions: seq![
                    Act::Send(Frame::Data { session_id, stream_id, role, payload: base64_encoding(data) }),
                ],
            }
        } else {
            ended(pre, session_id, stream_id, channel_key)
        },
        Happening::Inbound(data) => ClientStep { state: pre, actions: seq![Act::Write { data }] },
        _ => ended(pre, session_id, stream_id, channel_key),
    }
}

/// Ends a stream: drops its inbound buffer and tells the peer. This is
/// also what an agent does when it cannot dial the target of a stream.
pub fn end_stream(state: &mut AgentState, session_id: &str, stream_id: &str, channel_key: &str) -> (out: Vec<
    ClientAction,
>)
    ensures
        final(state)@ == ended(old(state)@, session_id@, stream_id@, channel_key@).state,
        acts(out@) == ended(old(state)@, session_id@, stream_id@, channel_key@).actions,
{
    let mut out = no_actions();
    state.data_channels.remove(channel_key);
    then(&mut out, ClientAction::CloseChannel { channel_key: channel_key.to_owned() });
    then(
        &mut out,
        ClientAction::Send(
            WsMessage::StreamClose { session_id: session_id.to_owned(), stream_id: stream_id.to_owned() },
        ),
    );
    out
}

/// The frame that carries `payload`, the base64 text of a chunk read from
/// TCP by the side `role`, for the stream `stream_id` of the session
/// `session_id`.
pub fn data_frame(session_id: &str, stream_id: &str, role: &str, payload: String) -> (out: Vec<ClientAction>)
    ensures
        acts(out@) == seq![
            Act::Send(
                Frame::Data { session_id: session_id@, stream_id: stream_id@, role: role@, payload: payload@ },
            ),
        ],
{
    let mut out = no_actions();
    then(
        &mut out,
        ClientAction::Send(
            WsMessage::Data {
                session_id: session_id.to_owned(),
                stream_id: stream_id.to_owned(),
                role: role.to_owned(),
                payload,
            },
        ),
    );
    out
}

/// One step of the relay of the stream `stream_id` of the session
/// `session_id`, run by the side `role` with the inbound buffer
/// `channel_key`. Answers with what to do and with whether the stream goes
/// on. The payload made of a chunk that is not empty has four characters
/// for every three bytes begun, and decodes to the chunk again.
pub fn handle_stream_relay(
    state: &mut AgentState,
    session_id: &str,
    stream_id: &str,
    channel_key: &str,
    role: &str,
    event: RelayEvent,
) -> (r: (Vec<ClientAction>, bool))
    requires
        event matches RelayEvent::Chunk(data) ==> data@.len() <= READ_CHUNK_SIZE,
    ensures
        final(state)@ == relay_step(old(state)@, session_id@, stream_id@, channel_key@, role@, event@).state,
        acts(r.0@) == relay_step(old(state)@, session_id@, stream_id@, channel_key@, role@, event@).actions,
        r.1 == goes_on(event@),
        event@ matches Happening::Chunk(data) ==> data.len() > 0 ==> {
            &&& base64_encoding(data).len() == (data.len() + 2) / 3 * 4
            &&& base64_decoding(base64_encoding(data)) == Some(data)
        },
{
    match event {
        RelayEvent::Chunk(data) => {
            if data.len() > 0 {
                let payload = encode_payload(&data);
                (data_frame(session_id, stream_id, role, payload), true)
            } else {
                (end_stream(state, session_id, stream_id, channel_key), false)
            }
        },
        RelayEvent::Inbound(data) => {
            let mut out = no_actions();
            then(&mut out, ClientAction::Write { data });
            (out, true)
        },
        _ => (end_stream(state, session_id, stream_id, channel_key), false),
    }
}

/// What a controller does with a TCP connection accepted on the local
/// port of the tunnel `session_id`, named `stream_id`: it tells the agent,
/// registers the stream's inbound buffer, and only then starts the relay.
pub open spec fn accepted(pre: ClientModel, session_id: Seq<char>, stream_id: Seq<char>) -> ClientStep {
    let channel_key = channel_key_of("controller"@, stream_id);
    ClientStep {
        state: ClientModel { data_channels: put(pre.data_channels, channel_key, ()), ..pre },
        actions: seq![
            Act::Send(Frame::StreamOpen { session_id, stream_id }),
            Act::OpenChannel { channel_key },
            Act::Relay { session_id, stream_id, channel_key },
        ],
    }
}

/// Opens the stream `stream_id` for a connection accepted on the local
/// port of the tunnel `session_id`.
pub fn open_stream(state: &mut AgentState, session_id: &str, stream_id: String) -> (out: Vec<ClientAction>)
    ensures
        final(state)@ == accepted(old(state)@, session_id@, stream_id@).state,
        acts(out@) == accepted(old(state)@, session_id@, stream_id@).actions,
{
    let mut out = no_actions();
    then(
        &mut out,
        ClientAction::Send(
            WsMessage::StreamOpen { session_id: session_id.to_owned(), stream_id: copy_of(&stream_id) },
        ),
    );
    let key = channel_key("controller", stream_id.as_str());
    state.data_channels.insert(copy_of(&key), ());
    then(&mut out, ClientAction::OpenChannel { channel_key: copy_of(&key) });
    then(&mut out, ClientAction::Relay { session_id: session_id.to_owned(), stream_id, channel_key: key });
    out
}

/// Opens a stream, under a random identifier, for a connection accepted
/// on the local port of the tunnel `session_id`.
pub fn stream_accepted(state: &mut AgentState, session_id: &str) -> (out: Vec<ClientAction>)
    ensures
        exists|stream_id: Seq<char>|
            {
                let step = #[trigger] accepted(old(state)@, session_id@, stream_id);
                &&& is_short_id(stream_id)
                &&& final(state)@ == step.state
                &&& acts(out@) == step.actions
            },
{
    let stream_id = generate_short_id();
    let ghost chosen = stream_id@;
    let out = open_stream(state, session_id, stream_id);
    assert(state@ == accepted(old(state)@, session_id@, chosen).state);
    out
}

/// The text shown when the local port of a tunnel cannot be bound.
pub open spec fn port_unavailable_text(local_port: u16, reason: Seq<char>) -> Seq<char> {
    "Port "@ + decimal_text(local_port as nat) + " unavailable: "@ + reason
}

/// What a controller does when it cannot listen on the local port of a
/// tunnel: it tells the user why.
pub fn listen_failed(local_port: u16, reason: &str) -> (out: Vec<ClientAction>)
    ensures
        acts(out@) == seq![Act::Emit(Notice::ServerError(port_unavailable_text(local_port, reason@)))],
{
    let mut out = no_actions();
    let number = decimal(local_port);
    let a = joined("Port ", number.as_str());
    let b = joined(a.as_str(), " unavailable: ");
    let message = joined(b.as_str(), reason);
    then(&mut out, ClientAction::Emit(UiEvent::ServerError(message)));
    out
}

} // verus!

//! What the client asks the program around it to do.
//!
//! The client's functions change its state and answer with a list of
//! actions, in the order in which they are to be done: frames to queue for
//! the server, events for the user interface, tasks to start or to cancel,
//! bytes to hand to a stream.

use vstd::prelude::*;
use crate::client::state::ClientModel;
use crate::protocol::{Frame, WsMessage};

verus! {

/// An event for the user interface.
#[derive(Debug, PartialEq, Eq)]
pub enum UiEvent {
    /// `connection-status`: whether the link to the server stands.
    ConnectionStatus(bool),
    /// `registered`: the identifier the server assigned.
    Registered(String),
    /// `tunnels-updated`: the list of tunnels has changed.
    TunnelsUpdated,
    /// `server-error`: a failure to show to the user.
    ServerError(String),
}

/// What a `UiEvent` says.
pub ghost enum Notice {
    ConnectionStatus(bool),
    Registered(Seq<char>),
    TunnelsUpdated,
    ServerError(Seq<char>),
}

impl View for UiEvent {
    type V = Notice;

    open spec fn view(&self) -> Notice {
        match *self {
            UiEvent::ConnectionStatus(up) => Notice::ConnectionStatus(up),
            UiEvent::Registered(id) => Notice::Registered(id@),
            UiEvent::TunnelsUpdated => Notice::TunnelsUpdated,
            UiEvent::ServerError(message) => Notice::ServerError(message@),
        }
    }
}

/// One thing for the caller to do.
#[derive(Debug, PartialEq, Eq)]
pub enum ClientAction {
    /// Queue the frame for the server.
    Send(WsMessage),
    /// Emit the event to the user interface.
    Emit(UiEvent),
    /// Listen on `127.0.0.1:<local_port>` for the tunnel `session_id`, and
    /// track the listening task under that session.
    Listen { session_id: String, local_port: u16 },
    /// Create the inbound buffer of the stream with this key.
    OpenChannel { channel_key: String },
    /// Drop the inbound buffer of the stream with this key.
    CloseChannel { channel_key: String },
    /// Dial `remote_host:remote_port` and, once connected, relay the
    /// stream as the agent.
    Dial { session_id: String, stream_id: String, channel_key: String, remote_host: String, remote_port: u16 },
    /// Relay the stream over the TCP connection just accepted, as the
    /// controller.
    Relay { session_id: String, stream_id: String, channel_key: String },
    /// Hand the bytes to the inbound buffer of the stream with this key.
    Deliver { channel_key: String, data: Vec<u8> },
    /// Write the bytes, all of them, to the TCP connection of the stream.
    Write { data: Vec<u8> },
    /// Cancel the task with this handle.
    Abort { task: u64 },
    /// Connect to the server at this address.
    Connect { server_url: String },
    /// Start the writer that drains the outbound queue and the heartbeat
    /// that queues a `Ping` every `heartbeat_secs` seconds.
    StartLink { heartbeat_secs: u64 },
    /// Cancel the writer and the heartbeat.
    StopLink,
    /// Wait this many seconds, then try to connect again.
    Sleep { secs: u64 },
}

/// What a `ClientAction` says.
pub ghost enum Act {
    Send(Frame),
    Emit(Notice),
    Listen { session_id: Seq<char>, local_port: u16 },
    OpenChannel { channel_key: Seq<char> },
    CloseChannel { channel_key: Seq<char> },
    Dial {
        session_id: Seq<char>,
        stream_id: Seq<char>,
        channel_key: Seq<char>,
        remote_host: Seq<char>,
        remote_port: u16,
    },
    Relay { session_id: Seq<char>, stream_id: Seq<char>, channel_key: Seq<char> },
    Deliver { channel_key: Seq<char>, data: Seq<u8> },
    Write { data: Seq<u8> },
    Abort { task: u64 },
    Connect { server_url: Seq<char> },
    StartLink { heartbeat_secs: u64 },
    StopLink,
    Sleep { secs: u64 },
}

impl View for ClientAction {
    type V = Act;

    open spec fn view(&self) -> Act {
        match *self {
            ClientAction::Send(msg) => Act::Send(msg@),
            ClientAction::Emit(event) => Act::Emit(event@),
            ClientAction::Listen { session_id, local_port } => Act::Listen { session_id: session_id@, local_port },
            ClientAction::OpenChannel { channel_key } => Act::OpenChannel { channel_key: channel_key@ },
            ClientAction::CloseChannel { channel_key } => Act::CloseChannel { channel_key: channel_key@ },
            ClientAction::Dial { session_id, stream_id, channel_key, remote_host, remote_port } => Act::Dial {
                session_id: session_id@,
                stream_id: stream_id@,
                channel_key: channel_key@,
                remote_host: remote_host@,
                remote_port,
            },
            ClientAction::Relay { session_id, stream_id, channel_key } => Act::Relay {
                session_id: session_id@,
                stream_id: stream_id@,
                channel_key: channel_key@,
            },
            ClientAction::Deliver { channel_key, data } => Act::Deliver { channel_key: channel_key@, data: data@ },
            ClientAction::Write { data } => Act::Write { data: data@ },
            ClientAction::Abort { task } => Act::Abort { task },
            ClientAction::Connect { server_url } => Act::Connect { server_url: server_url@ },
            ClientAction::StartLink { heartbeat_secs } => Act::StartLink { heartbeat_secs },
            ClientAction::StopLink => Act::StopLink,
            ClientAction::Sleep { secs } => Act::Sleep { secs },
        }
    }
}

/// What a list of actions says, in order.
pub open spec fn acts(out: Seq<ClientAction>) -> Seq<Act> {
    out.map_values(|a: ClientAction| a@)
}

/// The state after a step and the actions it asks for.
pub ghost struct ClientStep {
    pub state: ClientModel,
    pub actions: Seq<Act>,
}

/// One `Abort` for each task handle, in order.
pub open spec fn aborts(tasks: Seq<u64>) -> Seq<Act> {
    tasks.map_values(|task: u64| Act::Abort { task })
}

/// Adds `a` at the end of `out`.
pub(crate) fn then(out: &mut Vec<ClientAction>, a: ClientAction)
    ensures
        acts(final(out)@) == acts(old(out)@).push(a@),
{
    out.push(a);
    assert(acts(out@) =~= acts(old(out)@).push(a@));
}

/// An empty list of actions.
pub(crate) fn no_actions() -> (out: Vec<ClientAction>)
    ensures
        acts(out@) == Seq::<Act>::empty(),
{
    let out: Vec<ClientAction> = Vec::new();
    assert(acts(out@) =~= Seq::<Act>::empty());
    out
}

/// One `Abort` for each of `tasks`, added to `out`.
pub(crate) fn then_abort(out: &mut Vec<ClientAction>, tasks: &Vec<u64>)
    ensures
        acts(final(out)@) == acts(old(out)@) + aborts(tasks@),
{
    let ghost head = acts(out@);
    let mut k: usize = 0;
    assert(acts(out@) =~= head + aborts(tasks@.take(0)));
    while k < tasks.len()
        invariant
            k <= tasks.len(),
            acts(out@) == head + aborts(tasks@.take(k as int)),
        decreases tasks.len() - k,
    {
        then(out, ClientAction::Abort { task: tasks[k] });
        assert(acts(out@) =~= head + aborts(tasks@.take(k + 1)));
        k = k + 1;
    }
    assert(tasks@.take(k as int) =~= tasks@);
}

} // verus!

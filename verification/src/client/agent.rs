//! The client's reaction to the frames of the server and to the fate of
//! its link.
//!
//! `react` says what each frame does to the state and which actions it
//! asks for; `supervise` says the same of the events of the link.

use vstd::prelude::*;
use crate::client::actions::{
    aborts, acts, no_actions, then, then_abort, Act, ClientAction, ClientStep, Notice, UiEvent,
};
use crate::client::state::{
    all_tasks, tasks_of, tunnel_views, AgentState, AgentTunnelInfo, ClientModel, Target, Tunnel,
    TunnelInfo,
};
use crate::payload::{base64_decoding, base64_encoding, bytes_view, decode_payload};
use crate::protocol::{Frame, WsMessage};
use crate::table::{lookup, put, without};
use crate::text::{copy_of, joined, same_text};

verus! {

/// The key of a stream's inbound buffer on the side with the given role.
pub open spec fn channel_key_of(role: Seq<char>, stream_id: Seq<char>) -> Seq<char> {
    role + "-"@ + stream_id
}

/// The key of the inbound buffer that a `Data` frame sent by `role` is
/// for: the controller's for a frame of the agent, the agent's for any
/// other.
pub open spec fn target_key(role: Seq<char>, stream_id: Seq<char>) -> Seq<char> {
    if role == "agent"@ {
        channel_key_of("controller"@, stream_id)
    } else {
        channel_key_of("agent"@, stream_id)
    }
}

/// An outgoing tunnel that still waits for the server's answer.
pub open spec fn is_waiting(t: Tunnel) -> bool {
    t.direction == "outgoing"@ && t.status == "connecting"@
}

/// Whether `i` is the place of the first waiting tunnel in `s`.
pub open spec fn is_first_waiting(s: Seq<Tunnel>, i: int) -> bool {
    &&& 0 <= i < s.len()
    &&& is_waiting(s[i])
    &&& forall|j: int| 0 <= j < i ==> !is_waiting(#[trigger] s[j])
}

/// The list of tunnels after the server has confirmed the session
/// `session_id`: the first waiting tunnel, if there is one, now carries
/// that identifier and is active.
pub open spec fn promoted(s: Seq<Tunnel>, session_id: Seq<char>) -> Seq<Tunnel> {
    if exists|i: int| is_first_waiting(s, i) {
        let i = choose|i: int| is_first_waiting(s, i);
        s.update(i, Tunnel { session_id, status: "active"@, ..s[i] })
    } else {
        s
    }
}

/// The list of tunnels without those of the session `session_id`.
pub open spec fn tunnels_without(s: Seq<Tunnel>, session_id: Seq<char>) -> Seq<Tunnel>
    decreases s.len(),
{
    if s.len() == 0 {
        Seq::empty()
    } else if s.last().session_id == session_id {
        tunnels_without(s.drop_last(), session_id)
    } else {
        tunnels_without(s.drop_last(), session_id).push(s.last())
    }
}

/// What becomes of the payload of a `Data` frame sent by `role` on the
/// stream `stream_id`, once decoded: the bytes are handed to the inbound
/// buffer of the opposite side if there is one; a payload that is not
/// base64, or one for a stream without a buffer, is dropped.
pub open spec fn delivered(
    pre: ClientModel,
    stream_id: Seq<char>,
    role: Seq<char>,
    decoded: Option<Seq<u8>>,
) -> Seq<Act> {
    match decoded {
        Some(data) => if lookup(pre.data_channels, target_key(role, stream_id)) is Some {
            seq![Act::Deliver { channel_key: target_key(role, stream_id), data }]
        } else {
            seq![]
        },
        None => seq![],
    }
}

/// The notices that the buffers of a closed stream are to be dropped: one
/// for the agent's key and one for the controller's, each only if the
/// client holds it.
pub open spec fn closings(pre: ClientModel, stream_id: Seq<char>) -> Seq<Act> {
    let a = channel_key_of("agent"@, stream_id);
    let c = channel_key_of("controller"@, stream_id);
    let first = if lookup(pre.data_channels, a) is Some {
        seq![Act::CloseChannel { channel_key: a }]
    } else {
        seq![]
    };
    let second = if lookup(without(pre.data_channels, a), c) is Some {
        seq![Act::CloseChannel { channel_key: c }]
    } else {
        seq![]
    };
    first + second
}

/// What the client does with a frame from the server.
pub open spec fn react(pre: ClientModel, frame: Frame) -> ClientStep {
    let idle = ClientStep { state: pre, actions: seq![] };
    match frame {
        Frame::RegisterOk { agent_id } => ClientStep {
            state: ClientModel { agent_id, ..pre },
            actions: seq![Act::Emit(Notice::Registered(agent_id))],
        },
        Frame::TunnelRequest { session_id, remote_host, remote_port } => ClientStep {
            state: ClientModel {
                agent_tunnels: put(pre.agent_tunnels, session_id, Target { remote_host, remote_port }),
                tunnels: pre.tunnels.push(
                    Tunnel {
                        session_id,
                        remote_host,
                        remote_port,
                        local_port: 0,
                        direction: "incoming"@,
                        status: "active"@,
                    },
                ),
                ..pre
            },
            actions: seq![Act::Send(Frame::TunnelAccept { session_id }), Act::Emit(Notice::TunnelsUpdated)],
        },
        Frame::TunnelReady { session_id } => if pre.pending_connects.len() > 0 {
            ClientStep {
                state: ClientModel {
                    pending_connects: pre.pending_connects.drop_first(),
                    tunnels: promoted(pre.tunnels, session_id),
                    ..pre
                },
                actions: seq![
                    Act::Emit(Notice::TunnelsUpdated),
                    Act::Listen { session_id, local_port: pre.pending_connects[0].1.local_port },
                ],
            }
        } else {
            ClientStep {
                state: ClientModel { tunnels: promoted(pre.tunnels, session_id), ..pre },
                actions: seq![Act::Emit(Notice::TunnelsUpdated)],
            }
        },
        Frame::StreamOpen { session_id, stream_id } => match lookup(pre.agent_tunnels, session_id) {
            Some(target) => {
                let channel_key = channel_key_of("agent"@, stream_id);
                ClientStep {
                    state: ClientModel { data_channels: put(pre.data_channels, channel_key, ()), ..pre },
                    actions: seq![
                        Act::OpenChannel { channel_key },
                        Act::Dial {
                            session_id,
                            stream_id,
                            channel_key,
                            remote_host: target.remote_host,
                            remote_port: target.remote_port,
                        },
                    ],
                }
            },
            None => idle,
        },
        Frame::StreamClose { session_id, stream_id } => ClientStep {
            state: ClientModel {
                data_channels: without(
                    without(pre.data_channels, channel_key_of("agent"@, stream_id)),
                    channel_key_of("controller"@, stream_id),
                ),
                ..pre
            },
            actions: closings(pre, stream_id),
        },
        Frame::TunnelClose { session_id } => ClientStep {
            state: ClientModel {
                task_handles: without(pre.task_handles, session_id),
                agent_tunnels: without(pre.agent_tunnels, session_id),
                tunnels: tunnels_without(pre.tunnels, session_id),
                ..pre
            },
            actions: aborts(tasks_of(pre.task_handles, session_id)).push(Act::Emit(Notice::TunnelsUpdated)),
        },
        Frame::Data { session_id, stream_id, role, payload } => ClientStep {
            state: pre,
            actions: delivered(pre, stream_id, role, base64_decoding(payload)),
        },
        Frame::Error { message } => ClientStep {
            state: pre,
            actions: seq![Act::Emit(Notice::ServerError(message))],
        },
        _ => idle,
    }
}

/// The key of a stream's inbound buffer on the side with the given role.
pub fn channel_key(role: &str, stream_id: &str) -> (r: String)
    ensures
        r@ == channel_key_of(role@, stream_id@),
{
    let head = joined(role, "-");
    joined(head.as_str(), stream_id)
}

/// Removes the tunnels of `session_id` from the list.
pub(crate) fn drop_tunnels(tunnels: &mut Vec<TunnelInfo>, session_id: &str)
    ensures
        tunnel_views(final(tunnels)@) == tunnels_without(tunnel_views(old(tunnels)@), session_id@),
{
    let mut kept: Vec<TunnelInfo> = Vec::new();
    let ghost all = tunnel_views(tunnels@);
    let mut i: usize = 0;
    while i < tunnels.len()
        invariant
            i <= tunnels.len(),
            all == tunnel_views(tunnels@),
            tunnel_views(kept@) == tunnels_without(all.take(i as int), session_id@),
        decreases tunnels.len() - i,
    {
        assert(all.take(i + 1).drop_last() =~= all.take(i as int));
        assert(all.take(i + 1).last() == tunnels@[i as int]@);
        if !same_text(tunnels[i].session_id.as_str(), session_id) {
            let t = tunnels[i].clone();
            kept.push(t);
            assert(tunnel_views(kept@) =~= tunnels_without(all.take(i as int), session_id@).push(
                tunnels@[i as int]@,
            ));
        }
        i = i + 1;
    }
    assert(all.take(i as int) =~= all);
    *tunnels = kept;
}

/// Marks the first waiting tunnel as active under `session_id`.
pub(crate) fn promote(tunnels: &mut Vec<TunnelInfo>, session_id: &str)
    ensures
        tunnel_views(final(tunnels)@) == promoted(tunnel_views(old(tunnels)@), session_id@),
{
    let ghost all = tunnel_views(tunnels@);
    let mut i: usize = 0;
    while i < tunnels.len()
        invariant
            i <= tunnels.len(),
            all == tunnel_views(tunnels@),
            tunnels@ == old(tunnels)@,
            forall|j: int| 0 <= j < i ==> !is_waiting(#[trigger] all[j]),
        decreases tunnels.len() - i,
    {
        let waiting = same_text(tunnels[i].direction.as_str(), "outgoing") && same_text(
            tunnels[i].status.as_str(),
            "connecting",
        );
        if waiting {
            let t = TunnelInfo {
                session_id: session_id.to_owned(),
                remote_host: copy_of(&tunnels[i].remote_host),
                remote_port: tunnels[i].remote_port,
                local_port: tunnels[i].local_port,
                direction: copy_of(&tunnels[i].direction),
                status: "active".to_owned(),
            };
            proof {
                assert(is_first_waiting(all, i as int));
                let c = choose|c: int| is_first_waiting(all, c);
                assert(c == i);
            }
            tunnels.set(i, t);
            assert(tunnel_views(tunnels@) =~= promoted(all, session_id@));
            return ;
        }
        i = i + 1;
    }
    assert(forall|c: int| !is_first_waiting(all, c));
}

/// Hands the decoded payload of a `Data` frame, sent by `role` on the
/// stream `stream_id`, to the inbound buffer it is for.
pub fn deliver_data(state: &AgentState, stream_id: &str, role: &str, decoded: Option<Vec<u8>>) -> (out: Vec<
    ClientAction,
>)
    ensures
        acts(out@) == delivered(state@, stream_id@, role@, bytes_view(decoded)),
{
    let mut out = no_actions();
    match decoded {
        Some(data) => {
            let key = if same_text(role, "agent") {
                channel_key("controller", stream_id)
            } else {
                channel_key("agent", stream_id)
            };
            if state.data_channels.contains_key(key.as_str()) {
                then(&mut out, ClientAction::Deliver { channel_key: key, data });
            }
        },
        None => {},
    }
    out
}

/// The client learns the identifier the server assigned to it.
fn on_register_ok(state: &mut AgentState, agent_id: String) -> (out: Vec<ClientAction>)
    ensures
        final(state)@ == react(old(state)@, Frame::RegisterOk { agent_id: agent_id@ }).state,
        acts(out@) == react(old(state)@, Frame::RegisterOk { agent_id: agent_id@ }).actions,
{
    let mut out = no_actions();
    state.agent_id = copy_of(&agent_id);
    then(&mut out, ClientAction::Emit(UiEvent::Registered(agent_id)));
    out
}

/// As an agent, the client accepts a tunnel and remembers where it leads.
fn on_tunnel_request(state: &mut AgentState, session_id: String, remote_host: String, remote_port: u16) -> (out:
    Vec<ClientAction>)
    ensures
        final(state)@ == react(
            old(state)@,
            Frame::TunnelRequest { session_id: session_id@, remote_host: remote_host@, remote_port },
        ).state,
        acts(out@) == react(
            old(state)@,
            Frame::TunnelRequest { session_id: session_id@, remote_host: remote_host@, remote_port },
        ).actions,
{
    let mut out = no_actions();
    then(&mut out, ClientAction::Send(WsMessage::TunnelAccept { session_id: copy_of(&session_id) }));
    state.agent_tunnels.insert(
        copy_of(&session_id),
        AgentTunnelInfo { remote_host: copy_of(&remote_host), remote_port },
    );
    let ghost added = Tunnel {
        session_id: session_id@,
        remote_host: remote_host@,
        remote_port,
        local_port: 0,
        direction: "incoming"@,
        status: "active"@,
    };
    state.tunnels.push(
        TunnelInfo {
            session_id,
            remote_host,
            remote_port,
            local_port: 0,
            direction: "incoming".to_owned(),
            status: "active".to_owned(),
        },
    );
    assert(tunnel_views(state.tunnels@) =~= old(state)@.tunnels.push(added));
    then(&mut out, ClientAction::Emit(UiEvent::TunnelsUpdated));
    out
}

/// As a controller, the client learns that its tunnel stands: the oldest
/// pending connect is taken, the first waiting tunnel becomes active, and
/// the local listener is asked for.
fn on_tunnel_ready(state: &mut AgentState, session_id: String) -> (out: Vec<ClientAction>)
    ensures
        final(state)@ == react(old(state)@, Frame::TunnelReady { session_id: session_id@ }).state,
        acts(out@) == react(old(state)@, Frame::TunnelReady { session_id: session_id@ }).actions,
{
    let mut out = no_actions();
    let pending = state.pending_connects.pop_first();
    promote(&mut state.tunnels, session_id.as_str());
    then(&mut out, ClientAction::Emit(UiEvent::TunnelsUpdated));
    match pending {
        Some((_target, p)) => {
            then(&mut out, ClientAction::Listen { session_id, local_port: p.local_port });
        },
        None => {},
    }
    out
}

/// As an agent, the client registers the inbound buffer of a new stream
/// and then asks for the dial. A stream of a session it does not know is
/// ignored.
fn on_stream_open(state: &mut AgentState, session_id: String, stream_id: String) -> (out: Vec<ClientAction>)
    ensures
        final(state)@ == react(
            old(state)@,
            Frame::StreamOpen { session_id: session_id@, stream_id: stream_id@ },
        ).state,
        acts(out@) == react(
            old(state)@,
            Frame::StreamOpen { session_id: session_id@, stream_id: stream_id@ },
        ).actions,
{
    let mut out = no_actions();
    let target = match state.agent_tunnels.get(session_id.as_str()) {
        Some(info) => Some((copy_of(&info.remote_host), info.remote_port)),
        None => None,
    };
    match target {
        Some((remote_host, remote_port)) => {
            let key = channel_key("agent", stream_id.as_str());
            state.data_channels.insert(copy_of(&key), ());
            then(&mut out, ClientAction::OpenChannel { channel_key: copy_of(&key) });
            then(&mut out, ClientAction::Dial { session_id, stream_id, channel_key: key, remote_host, remote_port });
        },
        None => {},
    }
    out
}

/// The peer has closed a stream: the client drops the buffer it holds for
/// it, under either role.
fn on_stream_close(state: &mut AgentState, session_id: String, stream_id: String) -> (out: Vec<ClientAction>)
    ensures
        final(state)@ == react(
            old(state)@,
            Frame::StreamClose { session_id: session_id@, stream_id: stream_id@ },
        ).state,
        acts(out@) == react(
            old(state)@,
            Frame::StreamClose { session_id: session_id@, stream_id: stream_id@ },
        ).actions,
{
    let mut out = no_actions();
    let a = channel_key("agent", stream_id.as_str());
    let c = channel_key("controller", stream_id.as_str());
    if state.data_channels.remove(a.as_str()).is_some() {
        then(&mut out, ClientAction::CloseChannel { channel_key: a });
    }
    if state.data_channels.remove(c.as_str()).is_some() {
        then(&mut out, ClientAction::CloseChannel { channel_key: c });
    }
    assert(acts(out@) =~= closings(old(state)@, stream_id@));
    out
}

/// A tunnel is closed: its tasks are cancelled, its dial address and its
/// entries in the list of tunnels go.
fn on_tunnel_close(state: &mut AgentState, session_id: String) -> (out: Vec<ClientAction>)
    ensures
        final(state)@ == react(old(state)@, Frame::TunnelClose { session_id: session_id@ }).state,
        acts(out@) == react(old(state)@, Frame::TunnelClose { session_id: session_id@ }).actions,
{
    let mut out = no_actions();
    let tasks = state.abort_session_tasks(session_id.as_str());
    state.agent_tunnels.remove(session_id.as_str());
    drop_tunnels(&mut state.tunnels, session_id.as_str());
    then_abort(&mut out, &tasks);
    assert(acts(out@) =~= aborts(tasks@));
    then(&mut out, ClientAction::Emit(UiEvent::TunnelsUpdated));
    out
}

/// Handles one frame from the server. The payload of a `Data` frame that
/// is the base64 text of some bytes is delivered as exactly those bytes.
pub fn handle_server_message(state: &mut AgentState, msg: WsMessage) -> (out: Vec<ClientAction>)
    ensures
        final(state)@ == react(old(state)@, msg@).state,
        acts(out@) == react(old(state)@, msg@).actions,
        forall|b: Seq<u8>|
            msg@ is Data && msg@->payload == #[trigger] base64_encoding(b) ==> acts(out@) == delivered(
                old(state)@,
                msg@->Data_stream_id,
                msg@->role,
                Some(b),
            ),
{
    match msg {
        WsMessage::RegisterOk { agent_id } => on_register_ok(state, agent_id),
        WsMessage::TunnelRequest { session_id, remote_host, remote_port } => on_tunnel_request(
            state,
            session_id,
            remote_host,
            remote_port,
        ),
        WsMessage::TunnelReady { session_id } => on_tunnel_ready(state, session_id),
        WsMessage::StreamOpen { session_id, stream_id } => on_stream_open(state, session_id, stream_id),
        WsMessage::StreamClose { session_id, stream_id } => on_stream_close(state, session_id, stream_id),
        WsMessage::TunnelClose { session_id } => on_tunnel_close(state, session_id),
        WsMessage::Data { session_id, stream_id, role, payload } => {
            let decoded = decode_payload(payload.as_str());
            deliver_data(state, stream_id.as_str(), role.as_str(), decoded)
        },
        WsMessage::Error { message } => {
            let mut out = no_actions();
            then(&mut out, ClientAction::Emit(UiEvent::ServerError(message)));
            out
        },
        _ => no_actions(),
    }
}

/// How long the client waits before it tries to connect again.
pub const RECONNECT_DELAY_SECS: u64 = 3;

/// How often the client queues a `Ping` while its link stands.
pub const HEARTBEAT_SECS: u64 = 30;

/// What happens to the client's link to the server.
#[derive(Debug, PartialEq, Eq)]
pub enum LinkEvent {
    /// A new round begins: the client is about to connect.
    Attempt,
    /// The attempt to connect failed.
    Failed,
    /// The link stands; `tx` is the handle of its outbound queue.
    Up { tx: u64 },
    /// The link is lost: closed by the server, broken, or closed in order.
    Down,
}

/// One `CloseChannel` for each key, in order.
pub open spec fn channel_closings(channels: Seq<(Seq<char>, ())>) -> Seq<Act> {
    channels.map_values(|e: (Seq<char>, ())| Act::CloseChannel { channel_key: e.0 })
}

/// The state after the link is lost: not connected, without an outbound
/// queue, without inbound buffers, dial addresses, tasks or tunnels. The
/// identifier, the server address and the pending connects stay.
pub open spec fn disconnected(pre: ClientModel) -> ClientModel {
    ClientModel {
        connected: false,
        ws_tx: None,
        data_channels: Seq::empty(),
        agent_tunnels: Seq::empty(),
        task_handles: Seq::empty(),
        tunnels: Seq::empty(),
        ..pre
    }
}

/// What the client does when something happens to its link.
pub open spec fn supervise(pre: ClientModel, event: LinkEvent) -> ClientStep {
    match event {
        LinkEvent::Attempt => ClientStep {
            state: pre,
            actions: seq![
                Act::Emit(Notice::ConnectionStatus(false)),
                Act::Connect { server_url: pre.server_url },
            ],
        },
        LinkEvent::Failed => ClientStep { state: pre, actions: seq![Act::Sleep { secs: RECONNECT_DELAY_SECS }] },
        LinkEvent::Up { tx } => ClientStep {
            state: ClientModel { connected: true, ws_tx: Some(tx), ..pre },
            actions: seq![
                Act::Emit(Notice::ConnectionStatus(true)),
                Act::Send(Frame::Register),
                Act::StartLink { heartbeat_secs: HEARTBEAT_SECS },
            ],
        },
        LinkEvent::Down => ClientStep {
            state: disconnected(pre),
            actions: (seq![Act::StopLink] + channel_closings(pre.data_channels) + aborts(
                all_tasks(pre.task_handles),
            )).push(Act::Emit(Notice::TunnelsUpdated)).push(Act::Emit(Notice::ConnectionStatus(false))).push(
                Act::Sleep { secs: RECONNECT_DELAY_SECS },
            ),
        },
    }
}

/// One step of the loop that keeps the client connected: changes the
/// state as the event asks and says what to do next. After `Down` nothing
/// of the lost connection is left in the state.
pub fn run_agent_loop(state: &mut AgentState, event: LinkEvent) -> (out: Vec<ClientAction>)
    ensures
        final(state)@ == supervise(old(state)@, event).state,
        acts(out@) == supervise(old(state)@, event).actions,
        event is Down ==> {
            &&& !final(state)@.connected
            &&& final(state)@.ws_tx is None
            &&& final(state)@.data_channels.len() == 0
            &&& final(state)@.agent_tunnels.len() == 0
            &&& final(state)@.task_handles.len() == 0
            &&& final(state)@.tunnels.len() == 0
        },
{
    let mut out = no_actions();
    match event {
        LinkEvent::Attempt => {
            then(&mut out, ClientAction::Emit(UiEvent::ConnectionStatus(false)));
            then(&mut out, ClientAction::Connect { server_url: copy_of(&state.server_url) });
        },
        LinkEvent::Failed => {
            then(&mut out, ClientAction::Sleep { secs: RECONNECT_DELAY_SECS });
        },
        LinkEvent::Up { tx } => {
            state.connected = true;
            then(&mut out, ClientAction::Emit(UiEvent::ConnectionStatus(true)));
            state.ws_tx = Some(tx);
            then(&mut out, ClientAction::Send(WsMessage::Register));
            then(&mut out, ClientAction::StartLink { heartbeat_secs: HEARTBEAT_SECS });
        },
        LinkEvent::Down => {
            then(&mut out, ClientAction::StopLink);
            state.connected = false;
            state.ws_tx = None;
            let ghost channels = state@.data_channels;
            let (keys, _units) = state.data_channels.take_all();
            let mut i: usize = 0;
            while i < keys.len()
                invariant
                    i <= keys.len(),
                    keys@.len() == channels.len(),
                    forall|j: int| 0 <= j < channels.len() ==> (#[trigger] keys@[j])@ == channels[j].0,
                    acts(out@) == seq![Act::StopLink] + channel_closings(channels.take(i as int)),
                decreases keys.len() - i,
            {
                then(&mut out, ClientAction::CloseChannel { channel_key: copy_of(&keys[i]) });
                assert(acts(out@) =~= seq![Act::StopLink] + channel_closings(channels.take(i + 1)));
                i = i + 1;
            }
            assert(channels.take(i as int) =~= channels);
            state.agent_tunnels.clear();
            let tasks = state.abort_all_tasks();
            then_abort(&mut out, &tasks);
            state.tunnels = Vec::new();
            assert(tunnel_views(state.tunnels@) =~= Seq::<Tunnel>::empty());
            then(&mut out, ClientAction::Emit(UiEvent::TunnelsUpdated));
            then(&mut out, ClientAction::Emit(UiEvent::ConnectionStatus(false)));
            then(&mut out, ClientAction::Sleep { secs: RECONNECT_DELAY_SECS });
        },
    }
    out
}

} // verus!

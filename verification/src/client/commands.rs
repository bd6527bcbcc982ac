//! The commands the user interface gives to the client.

use vstd::prelude::*;
use crate::client::actions::{acts, no_actions, then, Act, ClientAction, ClientStep, Notice, UiEvent};
use crate::client::agent::{drop_tunnels, tunnels_without};
use crate::client::state::{
    tunnel_views, AgentState, AgentStatus, ClientModel, Pending, PendingConnect, Tunnel,
    TunnelInfo,
};
use crate::ids::{generate_short_id, is_short_id};
use crate::protocol::{Frame, WsMessage};
use crate::table::put;
use crate::text::{copy_of, joined};

verus! {

/// The client's identity and link: the identifier is empty until the
/// server has assigned one.
pub fn get_agent_info(state: &AgentState) -> (r: AgentStatus)
    ensures
        r.agent_id@ == state@.agent_id,
        r.connected == state@.connected,
        r.server_url@ == state@.server_url,
{
    AgentStatus {
        agent_id: copy_of(&state.agent_id),
        connected: state.connected,
        server_url: copy_of(&state.server_url),
    }
}

/// Sets the server address. It is used from the next connection on.
pub fn set_server_url(state: &mut AgentState, url: String)
    ensures
        final(state)@ == (ClientModel { server_url: url@, ..old(state)@ }),
{
    state.server_url = url;
}

/// The tunnels, oldest first.
pub fn get_tunnels(state: &AgentState) -> (r: Vec<TunnelInfo>)
    ensures
        tunnel_views(r@) == state@.tunnels,
{
    let mut r: Vec<TunnelInfo> = Vec::new();
    let mut i: usize = 0;
    while i < state.tunnels.len()
        invariant
            i <= state.tunnels.len(),
            r@.len() == i,
            forall|j: int| 0 <= j < i ==> (#[trigger] r@[j])@ == state.tunnels@[j]@,
        decreases state.tunnels.len() - i,
    {
        r.push(state.tunnels[i].clone());
        i = i + 1;
    }
    assert(tunnel_views(r@) =~= tunnel_views(state.tunnels@));
    r
}

/// The answer to a refused `connect_to_agent`.
pub open spec fn not_connected_text() -> Seq<char> {
    "Not connected to server"@
}

/// The placeholder under which a tunnel is listed until the server has
/// assigned its session identifier.
pub open spec fn placeholder_of(token: Seq<char>) -> Seq<char> {
    "pending-"@ + token
}

/// What a connected client does when asked for a tunnel to `target_id`:
/// it notes the request as pending, asks the server, and lists the tunnel
/// as connecting under the placeholder made from `token`.
pub open spec fn requested(
    pre: ClientModel,
    target_id: Seq<char>,
    remote_host: Seq<char>,
    remote_port: u16,
    local_port: u16,
    token: Seq<char>,
) -> ClientStep {
    ClientStep {
        state: ClientModel {
            pending_connects: put(pre.pending_connects, target_id, Pending { local_port, remote_host, remote_port }),
            tunnels: pre.tunnels.push(
                Tunnel {
                    session_id: placeholder_of(token),
                    remote_host,
                    remote_port,
                    local_port,
                    direction: "outgoing"@,
                    status: "connecting"@,
                },
            ),
            ..pre
        },
        actions: seq![
            Act::Send(Frame::Connect { target_id, remote_host, remote_port }),
            Act::Emit(Notice::TunnelsUpdated),
        ],
    }
}

/// A tunnel that has been asked for: the placeholder it is listed under
/// and what is to be done for it.
#[derive(Debug, PartialEq, Eq)]
pub struct Connecting {
    pub session_id: String,
    pub actions: Vec<ClientAction>,
}

/// Asks for a tunnel, with the placeholder made from `token`. Refused,
/// with nothing changed, exactly when the client has no link to the
/// server.
pub fn request_tunnel(
    state: &mut AgentState,
    target_id: String,
    remote_host: String,
    remote_port: u16,
    local_port: u16,
    token: &str,
) -> (r: Result<Connecting, String>)
    ensures
        r is Err == old(state)@.ws_tx is None,
        r matches Err(e) ==> e@ == not_connected_text() && final(state)@ == old(state)@,
        r matches Ok(c) ==> {
            let step = requested(old(state)@, target_id@, remote_host@, remote_port, local_port, token@);
            &&& c.session_id@ == placeholder_of(token@)
            &&& final(state)@ == step.state
            &&& acts(c.actions@) == step.actions
        },
{
    if state.ws_tx.is_none() {
        return Err("Not connected to server".to_owned());
    }
    let mut out = no_actions();
    state.pending_connects.insert(
        copy_of(&target_id),
        PendingConnect { local_port, remote_host: copy_of(&remote_host), remote_port },
    );
    then(
        &mut out,
        ClientAction::Send(WsMessage::Connect { target_id, remote_host: copy_of(&remote_host), remote_port }),
    );
    let session_id = joined("pending-", token);
    let ghost added = Tunnel {
        session_id: session_id@,
        remote_host: remote_host@,
        remote_port,
        local_port,
        direction: "outgoing"@,
        status: "connecting"@,
    };
    state.tunnels.push(
        TunnelInfo {
            session_id: copy_of(&session_id),
            remote_host,
            remote_port,
            local_port,
            direction: "outgoing".to_owned(),
            status: "connecting".to_owned(),
        },
    );
    assert(tunnel_views(state.tunnels@) =~= old(state)@.tunnels.push(added));
    then(&mut out, ClientAction::Emit(UiEvent::TunnelsUpdated));
    Ok(Connecting { session_id, actions: out })
}

/// Asks for a tunnel to the agent `target_id` that leads to
/// `remote_host:remote_port` and is to be reached on `local_port`. The
/// placeholder is made from a random token.
pub fn connect_to_agent(
    state: &mut AgentState,
    target_id: String,
    remote_host: String,
    remote_port: u16,
    local_port: u16,
) -> (r: Result<Connecting, String>)
    ensures
        r is Err == old(state)@.ws_tx is None,
        r matches Err(e) ==> e@ == not_connected_text() && final(state)@ == old(state)@,
        r matches Ok(c) ==> exists|token: Seq<char>|
            {
                let step = #[trigger] requested(
                    old(state)@,
                    target_id@,
                    remote_host@,
                    remote_port,
                    local_port,
                    token,
                );
                &&& is_short_id(token)
                &&& c.session_id@ == placeholder_of(token)
                &&& final(state)@ == step.state
                &&& acts(c.actions@) == step.actions
            },
{
    if state.ws_tx.is_none() {
        return Err("Not connected to server".to_owned());
    }
    let token = generate_short_id();
    let ghost target = target_id@;
    let ghost host = remote_host@;
    let r = request_tunnel(state, target_id, remote_host, remote_port, local_port, token.as_str());
    proof {
        let step = requested(old(state)@, target, host, remote_port, local_port, token@);
        assert(r is Ok ==> state@ == step.state);
    }
    r
}

/// What the client does when the user closes the tunnel `session_id`: it
/// tells the server if it has a link, and takes the tunnel off the list
/// at once.
pub open spec fn dismissed(pre: ClientModel, session_id: Seq<char>) -> ClientStep {
    let notice = if pre.ws_tx is Some {
        seq![Act::Send(Frame::TunnelClose { session_id })]
    } else {
        seq![]
    };
    ClientStep {
        state: ClientModel { tunnels: tunnels_without(pre.tunnels, session_id), ..pre },
        actions: notice.push(Act::Emit(Notice::TunnelsUpdated)),
    }
}

/// Closes the tunnel `session_id` at the user's wish.
pub fn disconnect_tunnel(state: &mut AgentState, session_id: String) -> (out: Vec<ClientAction>)
    ensures
        final(state)@ == dismissed(old(state)@, session_id@).state,
        acts(out@) == dismissed(old(state)@, session_id@).actions,
{
    let mut out = no_actions();
    drop_tunnels(&mut state.tunnels, session_id.as_str());
    if state.ws_tx.is_some() {
        then(&mut out, ClientAction::Send(WsMessage::TunnelClose { session_id }));
    }
    then(&mut out, ClientAction::Emit(UiEvent::TunnelsUpdated));
    out
}

} // verus!

//! The server's reaction to connections and frames.
//!
//! `dispatch` says, for a state of the registries and a frame from one
//! connection, what the registries are afterwards and which frames are
//! queued for whom. `apply_message` does exactly that on the real
//! registries; `handle_message` first draws the random identifier that a
//! registration or a new tunnel takes. Queuing itself is left to the
//! caller: each `Outbound` names the queue and the frame to put into it.

use vstd::prelude::*;
use crate::ids::{
    generate_agent_id, generate_short_id, hex8, hex8_text, is_agent_id, is_short_id, is_uuid_text,
    lemma_short_id_has_a_number, random_uuid_text, short_id_number,
};
use crate::protocol::{Frame, WsMessage};
use crate::server::state::{
    lists_keys, queues_get, queues_insert, queues_remove, sessions_get, sessions_insert,
    sessions_keys, sessions_remove, session_entries, AppState, ClientTx, Registries, Session,
    TunnelSession,
};
use crate::text::{copy_of, joined, same_text};

verus! {

/// A frame to put into the outbound queue with handle `tx`.
#[derive(Debug, PartialEq, Eq)]
pub struct Outbound {
    pub tx: ClientTx,
    pub msg: WsMessage,
}

/// What an `Outbound` says.
pub ghost struct Delivery {
    pub tx: u64,
    pub frame: Frame,
}

impl View for Outbound {
    type V = Delivery;

    open spec fn view(&self) -> Delivery {
        Delivery { tx: self.tx, frame: self.msg@ }
    }
}

/// What a list of `Outbound`s says, in order.
pub open spec fn deliveries(out: Seq<Outbound>) -> Seq<Delivery> {
    out.map_values(|o: Outbound| o@)
}

/// What an optional identifier says.
pub open spec fn id_view(id: Option<String>) -> Option<Seq<char>> {
    match id {
        Some(s) => Some(s@),
        None => None,
    }
}

/// The role a frame's sender has in a session: the controller if the frame
/// came over the controller's connection, else the agent.
pub open spec fn sender_role(conn_id: Seq<char>, s: Session) -> Seq<char> {
    if conn_id == s.controller_id {
        "controller"@
    } else {
        "agent"@
    }
}

/// The text of the error sent for a `Connect` to an agent that is not
/// registered.
pub open spec fn not_found_text(target_id: Seq<char>) -> Seq<char> {
    "Agent '"@ + target_id + "' not found"@
}

/// The text of the error sent for a `Connect` when every session
/// identifier is in use.
pub open spec fn no_session_id_text() -> Seq<char> {
    "No session id available"@
}

/// A frame for the controller of a session: one delivery to the queue of
/// the controller's connection, or none if that connection is gone.
pub open spec fn to_controller(r: Registries, s: Session, frame: Frame) -> Seq<Delivery> {
    if r.connections.contains_key(s.controller_id) {
        seq![Delivery { tx: r.connections[s.controller_id], frame }]
    } else {
        seq![]
    }
}

/// A frame for the agent of a session: one delivery to the agent's queue,
/// or none if the agent is no longer registered.
pub open spec fn to_agent(r: Registries, s: Session, frame: Frame) -> Seq<Delivery> {
    if r.agents.contains_key(s.agent_id) {
        seq![Delivery { tx: r.agents[s.agent_id], frame }]
    } else {
        seq![]
    }
}

/// Where a frame of a session goes when its sender has the role
/// `from_role`: from the agent to the controller, from the controller to
/// the agent, nowhere if the role is neither.
pub open spec fn relayed(r: Registries, s: Session, frame: Frame, from_role: Seq<char>) -> Seq<Delivery> {
    if from_role == "agent"@ {
        to_controller(r, s, frame)
    } else if from_role == "controller"@ {
        to_agent(r, s, frame)
    } else {
        seq![]
    }
}

/// Where a frame of a session goes that came over the connection
/// `conn_id`: to the agent if that is the controller's connection, else to
/// the controller. The frame is carried through as it is.
pub open spec fn forwarded(r: Registries, s: Session, frame: Frame, conn_id: Seq<char>) -> Seq<Delivery> {
    if conn_id == s.controller_id {
        to_agent(r, s, frame)
    } else {
        to_controller(r, s, frame)
    }
}

/// Relaying by the sender's role is forwarding by the sender's connection.
pub proof fn lemma_relayed_by_sender_role(r: Registries, s: Session, frame: Frame, conn_id: Seq<char>)
    ensures
        relayed(r, s, frame, sender_role(conn_id, s)) == forwarded(r, s, frame, conn_id),
{
    reveal_strlit("agent");
    reveal_strlit("controller");
    assert("agent"@.len() != "controller"@.len());
}

/// The notices of a closed tunnel: one for the controller's connection if
/// it is live, then one for the agent if it is registered.
pub open spec fn close_notices(r: Registries, s: Session) -> Seq<Delivery> {
    let notice = Frame::TunnelClose { session_id: s.session_id };
    to_controller(r, s, notice) + to_agent(r, s, notice)
}

/// The outcome of one frame: the registries, the agent identifier that the
/// connection is remembered under, and the frames queued.
pub ghost struct Step {
    pub state: Registries,
    pub agent_id: Option<Seq<char>>,
    pub out: Seq<Delivery>,
}

/// What the server does with `frame`, received over the connection
/// `conn_id` whose own queue is `tx` and which is so far remembered as
/// agent `agent_id`. `fresh` is the identifier drawn for this frame: the
/// new agent's for `Register`, the new session's for `Connect`.
///
/// An agent identifier that is drawn a second time while its first holder
/// is still registered takes the place of the first. A session identifier
/// never does: a `Connect` whose identifier names a live session creates
/// nothing and is answered with an `Error`.
pub open spec fn dispatch(
    pre: Registries,
    conn_id: Seq<char>,
    tx: u64,
    agent_id: Option<Seq<char>>,
    frame: Frame,
    fresh: Seq<char>,
) -> Step {
    let idle = Step { state: pre, agent_id, out: seq![] };
    match frame {
        Frame::Register => Step {
            state: Registries { agents: pre.agents.insert(fresh, tx), ..pre },
            agent_id: Some(fresh),
            out: seq![Delivery { tx, frame: Frame::RegisterOk { agent_id: fresh } }],
        },
        Frame::Connect { target_id, remote_host, remote_port } => if !pre.agents.contains_key(target_id) {
            Step {
                state: pre,
                agent_id,
                out: seq![Delivery { tx, frame: Frame::Error { message: not_found_text(target_id) } }],
            }
        } else if pre.sessions.contains_key(fresh) {
            Step {
                state: pre,
                agent_id,
                out: seq![Delivery { tx, frame: Frame::Error { message: no_session_id_text() } }],
            }
        } else {
            Step {
                state: Registries {
                    sessions: pre.sessions.insert(
                        fresh,
                        Session {
                            session_id: fresh,
                            agent_id: target_id,
                            controller_id: conn_id,
                            remote_host,
                            remote_port,
                        },
                    ),
                    ..pre
                },
                agent_id,
                out: seq![
                    Delivery {
                        tx: pre.agents[target_id],
                        frame: Frame::TunnelRequest { session_id: fresh, remote_host, remote_port },
                    },
                ],
            }
        },
        Frame::TunnelAccept { session_id } => if pre.sessions.contains_key(session_id)
            && pre.connections.contains_key(pre.sessions[session_id].controller_id) {
            Step {
                state: pre,
                agent_id,
                out: seq![
                    Delivery {
                        tx: pre.connections[pre.sessions[session_id].controller_id],
                        frame: Frame::TunnelReady { session_id },
                    },
                ],
            }
        } else {
            idle
        },
        Frame::StreamOpen { session_id, stream_id } => if pre.sessions.contains_key(session_id) {
            let s = pre.sessions[session_id];
            Step { state: pre, agent_id, out: forwarded(pre, s, frame, conn_id) }
        } else {
            idle
        },
        Frame::StreamClose { session_id, stream_id } => if pre.sessions.contains_key(session_id) {
            let s = pre.sessions[session_id];
            Step { state: pre, agent_id, out: forwarded(pre, s, frame, conn_id) }
        } else {
            idle
        },
        Frame::Data { session_id, stream_id, role, payload } => if pre.sessions.contains_key(session_id) {
            let s = pre.sessions[session_id];
            Step { state: pre, agent_id, out: forwarded(pre, s, frame, conn_id) }
        } else {
            idle
        },
        Frame::TunnelClose { session_id } => if pre.sessions.contains_key(session_id) {
            Step {
                state: Registries { sessions: pre.sessions.remove(session_id), ..pre },
                agent_id,
                out: close_notices(pre, pre.sessions[session_id]),
            }
        } else {
            idle
        },
        Frame::Ping => Step { state: pre, agent_id, out: seq![Delivery { tx, frame: Frame::Pong }] },
        _ => idle,
    }
}

/// Whether every session identifier names a live session.
pub open spec fn no_session_id_is_free(pre: Registries) -> bool {
    forall|id: Seq<char>| is_short_id(id) ==> #[trigger] pre.sessions.contains_key(id)
}

/// Whether `fresh` is an identifier that may be drawn for `frame` in the
/// state `pre`: an agent identifier for `Register`; for a `Connect` to a
/// registered agent a session identifier that names no live session, or
/// any session identifier if none is free; nothing otherwise.
pub open spec fn fresh_fits(pre: Registries, frame: Frame, fresh: Seq<char>) -> bool {
    match frame {
        Frame::Register => is_agent_id(fresh),
        Frame::Connect { target_id, .. } => if pre.agents.contains_key(target_id) {
            is_short_id(fresh) && (pre.sessions.contains_key(fresh) ==> no_session_id_is_free(pre))
        } else {
            fresh.len() == 0
        },
        _ => fresh.len() == 0,
    }
}

/// No frame to queue.
fn nothing() -> (out: Vec<Outbound>)
    ensures
        deliveries(out@) == Seq::<Delivery>::empty(),
{
    let out: Vec<Outbound> = Vec::new();
    assert(deliveries(out@) =~= Seq::<Delivery>::empty());
    out
}

/// One frame to queue.
fn single(tx: ClientTx, msg: WsMessage) -> (out: Vec<Outbound>)
    ensures
        deliveries(out@) == seq![Delivery { tx, frame: msg@ }],
{
    let mut out: Vec<Outbound> = Vec::new();
    out.push(Outbound { tx, msg });
    assert(deliveries(out@) =~= seq![Delivery { tx, frame: msg@ }]);
    out
}

/// Routes a frame of `session` to the side opposite to `from_role`.
pub fn relay_message(state: &AppState, session: &TunnelSession, msg: WsMessage, from_role: &str) -> (out: Vec<Outbound>)
    ensures
        deliveries(out@) == relayed(state@, session@, msg@, from_role@),
{
    if same_text(from_role, "agent") {
        match queues_get(&state.connections, session.controller_id.as_str()) {
            Some(c) => single(c, msg),
            None => nothing(),
        }
    } else if same_text(from_role, "controller") {
        match state.agent(session.agent_id.as_str()) {
            Some(a) => single(a.tx, msg),
            None => nothing(),
        }
    } else {
        nothing()
    }
}

/// The role of the sender of a frame that came over `conn_id`.
fn role_of_sender(conn_id: &str, session: &TunnelSession) -> (r: &'static str)
    ensures
        r@ == sender_role(conn_id@, session@),
{
    if same_text(conn_id, session.controller_id.as_str()) {
        "controller"
    } else {
        "agent"
    }
}

/// Does with `msg` what `dispatch` says, with `fresh` as the identifier
/// drawn for it.
pub fn apply_message(
    state: &mut AppState,
    conn_id: &str,
    tx: ClientTx,
    agent_id: &mut Option<String>,
    msg: WsMessage,
    fresh: String,
) -> (out: Vec<Outbound>)
    ensures
        final(state)@ == dispatch(old(state)@, conn_id@, tx, id_view(*old(agent_id)), msg@, fresh@).state,
        id_view(*final(agent_id)) == dispatch(
            old(state)@,
            conn_id@,
            tx,
            id_view(*old(agent_id)),
            msg@,
            fresh@,
        ).agent_id,
        deliveries(out@) == dispatch(old(state)@, conn_id@, tx, id_view(*old(agent_id)), msg@, fresh@).out,
{
    match msg {
        WsMessage::Register => {
            queues_insert(&mut state.agents, copy_of(&fresh), tx);
            *agent_id = Some(copy_of(&fresh));
            single(tx, WsMessage::RegisterOk { agent_id: fresh })
        },
        WsMessage::Connect { target_id, remote_host, remote_port } => {
            match state.agent(target_id.as_str()) {
                Some(agent_info) => if sessions_get(&state.sessions, fresh.as_str()).is_some() {
                    single(tx, WsMessage::Error { message: "No session id available".to_owned() })
                } else {
                    let session = TunnelSession {
                        session_id: copy_of(&fresh),
                        agent_id: target_id,
                        controller_id: conn_id.to_owned(),
                        remote_host: copy_of(&remote_host),
                        remote_port,
                    };
                    sessions_insert(&mut state.sessions, copy_of(&fresh), session);
                    single(agent_info.tx, WsMessage::TunnelRequest { session_id: fresh, remote_host, remote_port })
                },
                None => {
                    let head = joined("Agent '", target_id.as_str());
                    let message = joined(head.as_str(), "' not found");
                    single(tx, WsMessage::Error { message })
                },
            }
        },
        WsMessage::TunnelAccept { session_id } => {
            match sessions_get(&state.sessions, session_id.as_str()) {
                Some(session) => match queues_get(&state.connections, session.controller_id.as_str()) {
                    Some(c) => single(c, WsMessage::TunnelReady { session_id }),
                    None => nothing(),
                },
                None => nothing(),
            }
        },
        WsMessage::StreamOpen { session_id, stream_id } => {
            match sessions_get(&state.sessions, session_id.as_str()) {
                Some(session) => {
                    let role = role_of_sender(conn_id, &session);
                    proof {
                        lemma_relayed_by_sender_role(
                            state@,
                            session@,
                            Frame::StreamOpen { session_id: session_id@, stream_id: stream_id@ },
                            conn_id@,
                        );
                    }
                    relay_message(state, &session, WsMessage::StreamOpen { session_id, stream_id }, role)
                },
                None => nothing(),
            }
        },
        WsMessage::StreamClose { session_id, stream_id } => {
            match sessions_get(&state.sessions, session_id.as_str()) {
                Some(session) => {
                    let role = role_of_sender(conn_id, &session);
                    proof {
                        lemma_relayed_by_sender_role(
                            state@,
                            session@,
                            Frame::StreamClose { session_id: session_id@, stream_id: stream_id@ },
                            conn_id@,
                        );
                    }
                    relay_message(state, &session, WsMessage::StreamClose { session_id, stream_id }, role)
                },
                None => nothing(),
            }
        },
        WsMessage::Data { session_id, stream_id, role, payload } => {
            match sessions_get(&state.sessions, session_id.as_str()) {
                Some(session) => {
                    let from_role = role_of_sender(conn_id, &session);
                    proof {
                        lemma_relayed_by_sender_role(
                            state@,
                            session@,
                            Frame::Data {
                                session_id: session_id@,
                                stream_id: stream_id@,
                                role: role@,
                                payload: payload@,
                            },
                            conn_id@,
                        );
                    }
                    relay_message(
                        state,
                        &session,
                        WsMessage::Data { session_id, stream_id, role, payload },
                        from_role,
                    )
                },
                None => nothing(),
            }
        },
        WsMessage::TunnelClose { session_id } => {
            match sessions_get(&state.sessions, session_id.as_str()) {
                Some(session) => {
                    sessions_remove(&mut state.sessions, session_id.as_str());
                    let mut out: Vec<Outbound> = Vec::new();
                    match queues_get(&state.connections, session.controller_id.as_str()) {
                        Some(c) => {
                            out.push(
                                Outbound { tx: c, msg: WsMessage::TunnelClose { session_id: copy_of(&session.session_id) } },
                            );
                        },
                        None => {},
                    }
                    match state.agent(session.agent_id.as_str()) {
                        Some(a) => {
                            out.push(Outbound { tx: a.tx, msg: WsMessage::TunnelClose { session_id: session.session_id } });
                        },
                        None => {},
                    }
                    assert(deliveries(out@) =~= close_notices(old(state)@, session@));
                    out
                },
                None => nothing(),
            }
        },
        WsMessage::Ping => single(tx, WsMessage::Pong),
        _ => nothing(),
    }
}

/// A session identifier that names no live session, if there is one:
/// the identifiers are tried from the lowest number up.
fn free_session_id(state: &AppState) -> (r: Option<String>)
    ensures
        match r {
            Some(id) => is_short_id(id@) && !state@.sessions.contains_key(id@),
            None => no_session_id_is_free(state@),
        },
{
    let mut n: u64 = 0;
    while n < 0x1_0000_0000
        invariant
            n <= 0x1_0000_0000,
            forall|m: nat| m < n ==> state@.sessions.contains_key(#[trigger] hex8_text(m)),
        decreases 0x1_0000_0000 - n,
    {
        let id = hex8(n as u32);
        if sessions_get(&state.sessions, id.as_str()).is_none() {
            return Some(id);
        }
        n = n + 1;
    }
    proof {
        assert forall|id: Seq<char>| is_short_id(id) implies #[trigger] state@.sessions.contains_key(id) by {
            lemma_short_id_has_a_number(id);
            assert(hex8_text(short_id_number(id)) == id);
        }
    }
    None
}

/// Draws the session identifier for a new tunnel: a random one, and if
/// that names a live session, the first that names none.
fn draw_session_id(state: &AppState) -> (r: String)
    ensures
        is_short_id(r@),
        state@.sessions.contains_key(r@) ==> no_session_id_is_free(state@),
{
    let drawn = generate_short_id();
    if sessions_get(&state.sessions, drawn.as_str()).is_none() {
        drawn
    } else {
        match free_session_id(state) {
            Some(id) => id,
            None => drawn,
        }
    }
}

/// Handles one frame received over the connection `conn_id`, whose own
/// queue is `tx`. The outcome is that of `dispatch` for some identifier
/// that fits the frame; which one is left to chance. A new session gets
/// an identifier that names no live session whenever there is one.
pub fn handle_message(
    state: &mut AppState,
    conn_id: &str,
    tx: ClientTx,
    agent_id: &mut Option<String>,
    msg: WsMessage,
) -> (out: Vec<Outbound>)
    ensures
        exists|fresh: Seq<char>|
            {
                let step = #[trigger] dispatch(old(state)@, conn_id@, tx, id_view(*old(agent_id)), msg@, fresh);
                &&& fresh_fits(old(state)@, msg@, fresh)
                &&& final(state)@ == step.state
                &&& id_view(*final(agent_id)) == step.agent_id
                &&& deliveries(out@) == step.out
            },
{
    let fresh = match &msg {
        WsMessage::Register => generate_agent_id(),
        WsMessage::Connect { target_id, .. } => match state.agent(target_id.as_str()) {
            Some(_) => draw_session_id(state),
            None => String::new(),
        },
        _ => String::new(),
    };
    let ghost pre = state@;
    let ghost before = id_view(*agent_id);
    let ghost chosen = fresh@;
    let out = apply_message(state, conn_id, tx, agent_id, msg, fresh);
    assert(fresh_fits(pre, msg@, chosen));
    assert(state@ == dispatch(pre, conn_id@, tx, before, msg@, chosen).state);
    out
}

/// Takes a new connection into the connection registry under a random
/// identifier, which is returned. `tx` is the connection's outbound queue.
pub fn connection_opened(state: &mut AppState, tx: ClientTx) -> (conn_id: String)
    ensures
        is_uuid_text(conn_id@),
        final(state)@ == (Registries {
            connections: old(state)@.connections.insert(conn_id@, tx),
            ..old(state)@
        }),
{
    let conn_id = random_uuid_text();
    queues_insert(&mut state.connections, copy_of(&conn_id), tx);
    conn_id
}

/// Whether a session goes when the connection `conn_id`, remembered as
/// agent `agent_id`, is lost: it does if that connection is its controller
/// or that agent is its agent.
pub open spec fn doomed(s: Session, conn_id: Seq<char>, agent_id: Option<Seq<char>>) -> bool {
    s.controller_id == conn_id || agent_id == Some(s.agent_id)
}

/// The registries after the loss of the connection `conn_id`, remembered
/// as agent `agent_id`: without the connection, without the agent if it
/// had registered as one, and without the sessions that named either.
pub open spec fn closed(pre: Registries, conn_id: Seq<char>, agent_id: Option<Seq<char>>) -> Registries {
    Registries {
        agents: match agent_id {
            Some(a) => pre.agents.remove(a),
            None => pre.agents,
        },
        connections: pre.connections.remove(conn_id),
        sessions: Map::new(
            |k: Seq<char>| pre.sessions.contains_key(k) && !doomed(pre.sessions[k], conn_id, agent_id),
            |k: Seq<char>| pre.sessions[k],
        ),
    }
}

/// Whether the session `session` goes with the connection.
fn is_doomed(session: &TunnelSession, conn_id: &str, agent_id: &Option<String>) -> (r: bool)
    ensures
        r == doomed(session@, conn_id@, id_view(*agent_id)),
{
    if same_text(session.controller_id.as_str(), conn_id) {
        true
    } else {
        match agent_id {
            Some(a) => same_text(session.agent_id.as_str(), a.as_str()),
            None => false,
        }
    }
}

/// Removes every session that names the controller connection `conn_id`
/// or the agent `agent_id`.
fn remove_sessions_of(state: &mut AppState, conn_id: &str, agent_id: &Option<String>)
    ensures
        final(state)@ == (Registries {
            sessions: Map::new(
                |k: Seq<char>|
                    old(state)@.sessions.contains_key(k) && !doomed(
                        old(state)@.sessions[k],
                        conn_id@,
                        id_view(*agent_id),
                    ),
                |k: Seq<char>| old(state)@.sessions[k],
            ),
            ..old(state)@
        }),
{
    let ghost pre = state@.sessions;
    let ghost who = id_view(*agent_id);
    let keys = sessions_keys(&state.sessions);
    let mut i: usize = 0;
    while i < keys.len()
        invariant
            i <= keys.len(),
            who == id_view(*agent_id),
            lists_keys(keys@, pre.dom()),
            state@.agents == old(state)@.agents,
            state@.connections == old(state)@.connections,
            forall|k: Seq<char>| #[trigger]
                session_entries(state.sessions).contains_key(k) ==> pre.contains_key(k) && session_entries(
                    state.sessions,
                )[k] == pre[k],
            forall|k: Seq<char>| #[trigger]
                pre.contains_key(k) && !doomed(pre[k], conn_id@, who) ==> session_entries(
                    state.sessions,
                ).contains_key(k),
            forall|j: int|
                0 <= j < i && doomed(pre[#[trigger] keys[j]@], conn_id@, who) ==> !session_entries(
                    state.sessions,
                ).contains_key(keys[j]@),
        decreases keys.len() - i,
    {
        let key = &keys[i];
        match sessions_get(&state.sessions, key.as_str()) {
            Some(session) => {
                if is_doomed(&session, conn_id, agent_id) {
                    sessions_remove(&mut state.sessions, key.as_str());
                }
            },
            None => {},
        }
        i = i + 1;
    }
    assert(session_entries(state.sessions) =~= Map::new(
        |k: Seq<char>| pre.contains_key(k) && !doomed(pre[k], conn_id@, who),
        |k: Seq<char>| pre[k],
    ));
}

/// Cleans up after the connection `conn_id`, remembered as agent
/// `agent_id`, has ended. Nothing is sent to the peers of its sessions.
pub fn connection_closed(state: &mut AppState, conn_id: &str, agent_id: &Option<String>)
    ensures
        final(state)@ == closed(old(state)@, conn_id@, id_view(*agent_id)),
{
    queues_remove(&mut state.connections, conn_id);
    match agent_id {
        Some(a) => {
            queues_remove(&mut state.agents, a.as_str());
        },
        None => {},
    }
    remove_sessions_of(state, conn_id, agent_id);
}

} // verus!

//! What holds of the routing whatever frames arrive.

use vstd::prelude::*;
use crate::protocol::Frame;
use crate::server::handlers::{closed, dispatch, doomed, not_found_text, sender_role, Delivery};
use crate::server::state::{no_queues, no_sessions, Registries};

verus! {

/// Taking a new connection into the registry leaves every session
/// anchored.
pub proof fn lemma_opening_keeps_sessions_anchored(pre: Registries, conn_id: Seq<char>, tx: u64)
    requires
        pre.anchored(),
    ensures
        (Registries { connections: pre.connections.insert(conn_id, tx), ..pre }).anchored(),
{
    let post = Registries { connections: pre.connections.insert(conn_id, tx), ..pre };
    assert forall|sid: Seq<char>| #[trigger] post.sessions.contains_key(sid) implies {
        &&& post.sessions[sid].session_id == sid
        &&& post.agents.contains_key(post.sessions[sid].agent_id)
        &&& post.connections.contains_key(post.sessions[sid].controller_id)
    } by {
        assert(pre.sessions.contains_key(sid));
    }
}

/// A frame that arrives over a live connection leaves every session
/// anchored: each still names a registered agent and a live controller
/// connection.
pub proof fn lemma_dispatch_keeps_sessions_anchored(
    pre: Registries,
    conn_id: Seq<char>,
    tx: u64,
    agent_id: Option<Seq<char>>,
    frame: Frame,
    fresh: Seq<char>,
)
    requires
        pre.anchored(),
        pre.connections.contains_key(conn_id),
    ensures
        dispatch(pre, conn_id, tx, agent_id, frame, fresh).state.anchored(),
{
    let post = dispatch(pre, conn_id, tx, agent_id, frame, fresh).state;
    assert forall|sid: Seq<char>| #[trigger] post.sessions.contains_key(sid) implies {
        &&& post.sessions[sid].session_id == sid
        &&& post.agents.contains_key(post.sessions[sid].agent_id)
        &&& post.connections.contains_key(post.sessions[sid].controller_id)
    } by {
        if pre.sessions.contains_key(sid) && post.sessions[sid] == pre.sessions[sid] {
            assert(pre.agents.contains_key(pre.sessions[sid].agent_id));
        }
    }
}

/// After the loss of a connection no session names it as controller or
/// names the agent it was remembered as, every other session is still
/// there as it was, and every session that is left is anchored.
pub proof fn lemma_closing_removes_every_session_of_the_party(
    pre: Registries,
    conn_id: Seq<char>,
    agent_id: Option<Seq<char>>,
)
    requires
        pre.anchored(),
    ensures
        closed(pre, conn_id, agent_id).anchored(),
        !closed(pre, conn_id, agent_id).connections.contains_key(conn_id),
        forall|sid: Seq<char>| #[trigger]
            closed(pre, conn_id, agent_id).sessions.contains_key(sid) ==> {
                &&& closed(pre, conn_id, agent_id).sessions[sid].controller_id != conn_id
                &&& agent_id != Some(closed(pre, conn_id, agent_id).sessions[sid].agent_id)
            },
        forall|sid: Seq<char>|
            pre.sessions.contains_key(sid) && !doomed(pre.sessions[sid], conn_id, agent_id) ==> #[trigger] closed(
                pre,
                conn_id,
                agent_id,
            ).sessions.contains_key(sid) && closed(pre, conn_id, agent_id).sessions[sid] == pre.sessions[sid],
{
    let post = closed(pre, conn_id, agent_id);
    assert forall|sid: Seq<char>| #[trigger] post.sessions.contains_key(sid) implies {
        &&& post.sessions[sid].session_id == sid
        &&& post.agents.contains_key(post.sessions[sid].agent_id)
        &&& post.connections.contains_key(post.sessions[sid].controller_id)
    } by {
        assert(pre.sessions.contains_key(sid));
    }
}

/// A `Connect` never replaces a live session: every session that was
/// there is still there as it was, and a session that is created is kept
/// under an identifier that named none before.
pub proof fn lemma_connect_keeps_the_live_sessions(
    pre: Registries,
    conn_id: Seq<char>,
    tx: u64,
    agent_id: Option<Seq<char>>,
    frame: Frame,
    fresh: Seq<char>,
)
    requires
        frame is Connect,
    ensures
        forall|sid: Seq<char>| #[trigger]
            pre.sessions.contains_key(sid) ==> dispatch(pre, conn_id, tx, agent_id, frame, fresh).state.sessions.contains_key(
                sid,
            ) && dispatch(pre, conn_id, tx, agent_id, frame, fresh).state.sessions[sid] == pre.sessions[sid],
        forall|sid: Seq<char>| #[trigger]
            dispatch(pre, conn_id, tx, agent_id, frame, fresh).state.sessions.contains_key(sid)
                && !pre.sessions.contains_key(sid) ==> sid == fresh && pre.agents.contains_key(frame->target_id),
        pre.agents.contains_key(frame->target_id) && !pre.sessions.contains_key(fresh) ==> dispatch(
            pre,
            conn_id,
            tx,
            agent_id,
            frame,
            fresh,
        ).state.sessions.contains_key(fresh),
{
}

/// In an anchored state the notices of a closed tunnel carry the
/// identifier that the `TunnelClose` named.
pub proof fn lemma_close_notices_carry_the_named_id(
    pre: Registries,
    conn_id: Seq<char>,
    tx: u64,
    agent_id: Option<Seq<char>>,
    session_id: Seq<char>,
    fresh: Seq<char>,
    i: int,
)
    requires
        pre.anchored(),
        0 <= i < dispatch(pre, conn_id, tx, agent_id, Frame::TunnelClose { session_id }, fresh).out.len(),
    ensures
        dispatch(pre, conn_id, tx, agent_id, Frame::TunnelClose { session_id }, fresh).out[i].frame
            == (Frame::TunnelClose { session_id }),
        !dispatch(pre, conn_id, tx, agent_id, Frame::TunnelClose { session_id }, fresh).state.sessions.contains_key(
            session_id,
        ),
{
    assert(pre.sessions.contains_key(session_id));
}

/// Something that happens to the server.
pub ghost enum ServerEvent {
    /// A connection is taken into the registry.
    Opened { conn_id: Seq<char>, tx: u64 },
    /// A frame arrives over a connection.
    Received { conn_id: Seq<char>, tx: u64, agent_id: Option<Seq<char>>, frame: Frame, fresh: Seq<char> },
    /// A connection ends.
    Closed { conn_id: Seq<char>, agent_id: Option<Seq<char>> },
}

/// The registries after an event.
pub open spec fn after(pre: Registries, event: ServerEvent) -> Registries {
    match event {
        ServerEvent::Opened { conn_id, tx } => Registries { connections: pre.connections.insert(conn_id, tx), ..pre },
        ServerEvent::Received { conn_id, tx, agent_id, frame, fresh } => dispatch(
            pre,
            conn_id,
            tx,
            agent_id,
            frame,
            fresh,
        ).state,
        ServerEvent::Closed { conn_id, agent_id } => closed(pre, conn_id, agent_id),
    }
}

/// Whether an event can happen in a state: frames arrive over live
/// connections only.
pub open spec fn in_order(pre: Registries, event: ServerEvent) -> bool {
    match event {
        ServerEvent::Received { conn_id, .. } => pre.connections.contains_key(conn_id),
        _ => true,
    }
}

/// The registries after a run of events.
pub open spec fn after_all(start: Registries, events: Seq<ServerEvent>) -> Registries
    decreases events.len(),
{
    if events.len() == 0 {
        start
    } else {
        after(after_all(start, events.drop_last()), events.last())
    }
}

/// Whether each event of a run can happen in the state the run has
/// reached by then.
pub open spec fn all_in_order(start: Registries, events: Seq<ServerEvent>) -> bool
    decreases events.len(),
{
    events.len() == 0 || (all_in_order(start, events.drop_last()) && in_order(
        after_all(start, events.drop_last()),
        events.last(),
    ))
}

/// In every state that a server reaches from empty registries, every
/// session is kept under its own identifier and names a registered agent
/// and a live controller connection.
pub proof fn lemma_every_reached_state_is_anchored(events: Seq<ServerEvent>)
    requires
        all_in_order(
            Registries { agents: no_queues(), connections: no_queues(), sessions: no_sessions() },
            events,
        ),
    ensures
        after_all(
            Registries { agents: no_queues(), connections: no_queues(), sessions: no_sessions() },
            events,
        ).anchored(),
    decreases events.len(),
{
    let start = Registries { agents: no_queues(), connections: no_queues(), sessions: no_sessions() };
    if events.len() > 0 {
        lemma_every_reached_state_is_anchored(events.drop_last());
        let pre = after_all(start, events.drop_last());
        match events.last() {
            ServerEvent::Opened { conn_id, tx } => {
                lemma_opening_keeps_sessions_anchored(pre, conn_id, tx);
            },
            ServerEvent::Received { conn_id, tx, agent_id, frame, fresh } => {
                lemma_dispatch_keeps_sessions_anchored(pre, conn_id, tx, agent_id, frame, fresh);
            },
            ServerEvent::Closed { conn_id, agent_id } => {
                lemma_closing_removes_every_session_of_the_party(pre, conn_id, agent_id);
            },
        }
    }
}

/// A `Data` frame is queued at most once, unchanged, and only for the side
/// opposite to the connection it came over: for the session's agent if it
/// came over the controller's connection, else for the controller's
/// connection. So a frame whose `role` names its sender's side never
/// reaches that side: one with the role `controller` is queued for the
/// agent only, one with the role `agent` for the controller only.
pub proof fn lemma_data_reaches_only_the_other_side(
    pre: Registries,
    conn_id: Seq<char>,
    tx: u64,
    agent_id: Option<Seq<char>>,
    frame: Frame,
    fresh: Seq<char>,
)
    requires
        frame is Data,
    ensures
        dispatch(pre, conn_id, tx, agent_id, frame, fresh).state == pre,
        dispatch(pre, conn_id, tx, agent_id, frame, fresh).out.len() <= 1,
        forall|i: int|
            0 <= i < dispatch(pre, conn_id, tx, agent_id, frame, fresh).out.len() ==> {
                let d: Delivery = #[trigger] dispatch(pre, conn_id, tx, agent_id, frame, fresh).out[i];
                let s = pre.sessions[frame->Data_session_id];
                &&& pre.sessions.contains_key(frame->Data_session_id)
                &&& d.frame == frame
                &&& conn_id == s.controller_id ==> pre.agents.contains_key(s.agent_id) && d.tx
                    == pre.agents[s.agent_id]
                &&& conn_id != s.controller_id ==> pre.connections.contains_key(s.controller_id) && d.tx
                    == pre.connections[s.controller_id]
                &&& frame->Data_role == sender_role(conn_id, s) && frame->Data_role == "controller"@
                    ==> pre.agents.contains_key(s.agent_id) && d.tx == pre.agents[s.agent_id]
                &&& frame->Data_role == sender_role(conn_id, s) && frame->Data_role == "agent"@
                    ==> pre.connections.contains_key(s.controller_id) && d.tx == pre.connections[s.controller_id]
            },
{
    reveal_strlit("agent");
    reveal_strlit("controller");
    assert("agent"@.len() != "controller"@.len());
}

/// Two `Data` frames of one session that come over the same connection
/// one after the other are queued for the same side, the first before the
/// second, each once and unchanged.
pub proof fn lemma_data_frames_keep_their_order(
    pre: Registries,
    conn_id: Seq<char>,
    tx: u64,
    agent_id: Option<Seq<char>>,
    first: Frame,
    second: Frame,
    fresh: Seq<char>,
)
    requires
        first is Data,
        second is Data,
        first->Data_session_id == second->Data_session_id,
        dispatch(pre, conn_id, tx, agent_id, first, fresh).out.len() > 0,
    ensures
        ({
            let after_first = dispatch(pre, conn_id, tx, agent_id, first, fresh);
            let after_second = dispatch(after_first.state, conn_id, tx, after_first.agent_id, second, fresh);
            &&& after_second.state == pre
            &&& after_first.out.len() == 1
            &&& after_second.out.len() == 1
            &&& after_first.out + after_second.out == seq![
                Delivery { tx: after_first.out[0].tx, frame: first },
                Delivery { tx: after_first.out[0].tx, frame: second },
            ]
        }),
{
    reveal_strlit("agent");
    reveal_strlit("controller");
    let after_first = dispatch(pre, conn_id, tx, agent_id, first, fresh);
    let after_second = dispatch(after_first.state, conn_id, tx, after_first.agent_id, second, fresh);
    assert(after_first.out + after_second.out =~= seq![
        Delivery { tx: after_first.out[0].tx, frame: first },
        Delivery { tx: after_first.out[0].tx, frame: second },
    ]);
}

/// A `Connect` to an agent that is not registered is answered with exactly
/// one `Error` on the sender's own queue, and no session is created.
pub proof fn lemma_connect_to_unknown_agent(
    pre: Registries,
    conn_id: Seq<char>,
    tx: u64,
    agent_id: Option<Seq<char>>,
    frame: Frame,
    fresh: Seq<char>,
)
    requires
        frame is Connect,
        !pre.agents.contains_key(frame->target_id),
    ensures
        dispatch(pre, conn_id, tx, agent_id, frame, fresh).state == pre,
        dispatch(pre, conn_id, tx, agent_id, frame, fresh).out == seq![
            Delivery { tx, frame: Frame::Error { message: not_found_text(frame->target_id) } },
        ],
{
}

/// A `TunnelAccept`, `StreamOpen`, `StreamClose`, `Data` or `TunnelClose`
/// that names a session the server does not hold is dropped: nothing is
/// queued and nothing changes.
pub proof fn lemma_unknown_session_is_dropped(
    pre: Registries,
    conn_id: Seq<char>,
    tx: u64,
    agent_id: Option<Seq<char>>,
    frame: Frame,
    fresh: Seq<char>,
)
    requires
        match frame {
            Frame::TunnelAccept { session_id } => !pre.sessions.contains_key(session_id),
            Frame::StreamOpen { session_id, .. } => !pre.sessions.contains_key(session_id),
            Frame::StreamClose { session_id, .. } => !pre.sessions.contains_key(session_id),
            Frame::Data { session_id, .. } => !pre.sessions.contains_key(session_id),
            Frame::TunnelClose { session_id } => !pre.sessions.contains_key(session_id),
            _ => false,
        },
    ensures
        dispatch(pre, conn_id, tx, agent_id, frame, fresh).state == pre,
        dispatch(pre, conn_id, tx, agent_id, frame, fresh).agent_id == agent_id,
        dispatch(pre, conn_id, tx, agent_id, frame, fresh).out == Seq::<Delivery>::empty(),
{
}

} // verus!

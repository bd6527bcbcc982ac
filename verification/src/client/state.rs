//! The state of the tunnel client.
//!
//! It outlives any single connection to the server. Sockets, queues and
//! running tasks stay with the program around the library; the state
//! keeps the keys and handles by which they are found again.

use vstd::prelude::*;
use crate::table::{lookup, put, without, Table};
use crate::text::copy_of;

verus! {

/// The server address a new client starts with.
pub const DEFAULT_SERVER_URL: &'static str = "ws://127.0.0.1:7070/ws";

/// One tunnel as shown to the user.
#[derive(Debug, PartialEq, Eq)]
pub struct TunnelInfo {
    /// The session identifier, or a placeholder until the server has
    /// assigned one.
    pub session_id: String,
    /// The host the agent dials.
    pub remote_host: String,
    /// The port the agent dials.
    pub remote_port: u16,
    /// The local port the controller listens on; 0 on the agent's side.
    pub local_port: u16,
    /// `incoming` on the agent's side, `outgoing` on the controller's.
    pub direction: String,
    /// `connecting`, `active` or `error`.
    pub status: String,
}

/// What a `TunnelInfo` says.
pub ghost struct Tunnel {
    pub session_id: Seq<char>,
    pub remote_host: Seq<char>,
    pub remote_port: u16,
    pub local_port: u16,
    pub direction: Seq<char>,
    pub status: Seq<char>,
}

impl View for TunnelInfo {
    type V = Tunnel;

    open spec fn view(&self) -> Tunnel {
        Tunnel {
            session_id: self.session_id@,
            remote_host: self.remote_host@,
            remote_port: self.remote_port,
            local_port: self.local_port,
            direction: self.direction@,
            status: self.status@,
        }
    }
}

impl Clone for TunnelInfo {
    fn clone(&self) -> (r: Self)
        ensures
            r@ == self@,
    {
        TunnelInfo {
            session_id: copy_of(&self.session_id),
            remote_host: copy_of(&self.remote_host),
            remote_port: self.remote_port,
            local_port: self.local_port,
            direction: copy_of(&self.direction),
            status: copy_of(&self.status),
        }
    }
}

/// What a list of tunnels says, in order.
pub open spec fn tunnel_views(s: Seq<TunnelInfo>) -> Seq<Tunnel> {
    s.map_values(|t: TunnelInfo| t@)
}

/// The client's identity and link, as shown to the user.
#[derive(Debug, PartialEq, Eq)]
pub struct AgentStatus {
    /// The identifier the server assigned; empty until it has.
    pub agent_id: String,
    /// Whether the link to the server stands.
    pub connected: bool,
    /// The server address in use.
    pub server_url: String,
}

/// What was asked for with a `Connect` that the server has not answered
/// yet.
#[derive(Debug, PartialEq, Eq)]
pub struct PendingConnect {
    /// The local port to listen on once the tunnel stands.
    pub local_port: u16,
    /// The host the agent is to dial.
    pub remote_host: String,
    /// The port the agent is to dial.
    pub remote_port: u16,
}

/// What a `PendingConnect` says.
pub ghost struct Pending {
    pub local_port: u16,
    pub remote_host: Seq<char>,
    pub remote_port: u16,
}

impl View for PendingConnect {
    type V = Pending;

    open spec fn view(&self) -> Pending {
        Pending { local_port: self.local_port, remote_host: self.remote_host@, remote_port: self.remote_port }
    }
}

/// The address an agent dials for the streams of one tunnel.
#[derive(Debug, PartialEq, Eq)]
pub struct AgentTunnelInfo {
    /// The host to dial.
    pub remote_host: String,
    /// The port to dial.
    pub remote_port: u16,
}

/// What an `AgentTunnelInfo` says.
pub ghost struct Target {
    pub remote_host: Seq<char>,
    pub remote_port: u16,
}

impl View for AgentTunnelInfo {
    type V = Target;

    open spec fn view(&self) -> Target {
        Target { remote_host: self.remote_host@, remote_port: self.remote_port }
    }
}

/// The state of the client.
pub struct AgentState {
    /// The identifier the server assigned; empty until it has.
    pub agent_id: String,
    /// The server address; a change takes effect with the next connection.
    pub server_url: String,
    /// Whether the link to the server stands.
    pub connected: bool,
    /// The handle of the outbound queue of the link, while it stands.
    pub ws_tx: Option<u64>,
    /// The tunnels shown to the user, oldest first.
    pub tunnels: Vec<TunnelInfo>,
    /// The connects awaiting the server's answer, by target agent.
    pub pending_connects: Table<PendingConnect>,
    /// The keys, `{role}-{stream_id}`, of the streams that have an inbound
    /// buffer.
    pub data_channels: Table<()>,
    /// On the agent's side, the address to dial for each session.
    pub agent_tunnels: Table<AgentTunnelInfo>,
    /// The handles of the tasks running for each session.
    pub task_handles: Table<Vec<u64>>,
}

/// What an `AgentState` holds.
pub ghost struct ClientModel {
    pub agent_id: Seq<char>,
    pub server_url: Seq<char>,
    pub connected: bool,
    pub ws_tx: Option<u64>,
    pub tunnels: Seq<Tunnel>,
    pub pending_connects: Seq<(Seq<char>, Pending)>,
    pub data_channels: Seq<(Seq<char>, ())>,
    pub agent_tunnels: Seq<(Seq<char>, Target)>,
    pub task_handles: Seq<(Seq<char>, Seq<u64>)>,
}

impl View for AgentState {
    type V = ClientModel;

    open spec fn view(&self) -> ClientModel {
        ClientModel {
            agent_id: self.agent_id@,
            server_url: self.server_url@,
            connected: self.connected,
            ws_tx: self.ws_tx,
            tunnels: tunnel_views(self.tunnels@),
            pending_connects: self.pending_connects@,
            data_channels: self.data_channels@,
            agent_tunnels: self.agent_tunnels@,
            task_handles: self.task_handles@,
        }
    }
}

/// The task handles of a session, or none if the session has none.
pub open spec fn tasks_of(handles: Seq<(Seq<char>, Seq<u64>)>, session_id: Seq<char>) -> Seq<u64> {
    match lookup(handles, session_id) {
        Some(tasks) => tasks,
        None => Seq::empty(),
    }
}

/// Every task handle of every session: session by session, oldest first.
pub open spec fn all_tasks(handles: Seq<(Seq<char>, Seq<u64>)>) -> Seq<u64>
    decreases handles.len(),
{
    if handles.len() == 0 {
        Seq::empty()
    } else {
        all_tasks(handles.drop_last()) + handles.last().1
    }
}

impl AgentState {
    /// The state of a client that has never been connected.
    pub fn new() -> (r: Self)
        ensures
            r@.agent_id.len() == 0,
            r@.server_url == DEFAULT_SERVER_URL@,
            !r@.connected,
            r@.ws_tx is None,
            r@.tunnels.len() == 0,
            r@.pending_connects.len() == 0,
            r@.data_channels.len() == 0,
            r@.agent_tunnels.len() == 0,
            r@.task_handles.len() == 0,
    {
        let r = AgentState {
            agent_id: String::new(),
            server_url: DEFAULT_SERVER_URL.to_owned(),
            connected: false,
            ws_tx: None,
            tunnels: Vec::new(),
            pending_connects: Table::new(),
            data_channels: Table::new(),
            agent_tunnels: Table::new(),
            task_handles: Table::new(),
        };
        assert(r@.tunnels =~= Seq::<Tunnel>::empty());
        r
    }

    /// Remembers that the task with handle `task` runs for `session_id`.
    pub fn track_task(&mut self, session_id: String, task: u64)
        ensures
            final(self)@ == (ClientModel {
                task_handles: put(
                    without(old(self)@.task_handles, session_id@),
                    session_id@,
                    tasks_of(old(self)@.task_handles, session_id@).push(task),
                ),
                ..old(self)@
            }),
    {
        let mut tasks: Vec<u64> = match self.task_handles.remove(session_id.as_str()) {
            Some(t) => t,
            None => Vec::new(),
        };
        tasks.push(task);
        self.task_handles.insert(session_id, tasks);
    }

    /// Forgets the tasks of `session_id` and hands out their handles, for
    /// the caller to cancel them.
    pub fn abort_session_tasks(&mut self, session_id: &str) -> (tasks: Vec<u64>)
        ensures
            tasks@ == tasks_of(old(self)@.task_handles, session_id@),
            final(self)@ == (ClientModel {
                task_handles: without(old(self)@.task_handles, session_id@),
                ..old(self)@
            }),
    {
        match self.task_handles.remove(session_id) {
            Some(t) => t,
            None => Vec::new(),
        }
    }

    /// Forgets every task of every session and hands out their handles,
    /// for the caller to cancel them.
    pub fn abort_all_tasks(&mut self) -> (tasks: Vec<u64>)
        ensures
            tasks@ == all_tasks(old(self)@.task_handles),
            final(self)@ == (ClientModel { task_handles: Seq::empty(), ..old(self)@ }),
    {
        let ghost pre = self@.task_handles;
        let (_keys, lists) = self.task_handles.take_all();
        let mut tasks: Vec<u64> = Vec::new();
        let mut i: usize = 0;
        while i < lists.len()
            invariant
                i <= lists.len(),
                lists@.len() == pre.len(),
                forall|j: int| 0 <= j < pre.len() ==> (#[trigger] lists@[j])@ == pre[j].1,
                tasks@ == all_tasks(pre.take(i as int)),
            decreases lists.len() - i,
        {
            let list = &lists[i];
            let mut k: usize = 0;
            while k < list.len()
                invariant
                    k <= list.len(),
                    i < lists.len(),
                    lists@.len() == pre.len(),
                    list@ == pre[i as int].1,
                    tasks@ == all_tasks(pre.take(i as int)) + list@.take(k as int),
                decreases list.len() - k,
            {
                tasks.push(list[k]);
                assert(list@.take(k as int).push(list@[k as int]) =~= list@.take(k + 1));
                k = k + 1;
            }
            assert(list@.take(k as int) =~= list@);
            assert(pre.take(i + 1).drop_last() =~= pre.take(i as int));
            i = i + 1;
        }
        assert(pre.take(i as int) =~= pre);
        tasks
    }
}

} // verus!

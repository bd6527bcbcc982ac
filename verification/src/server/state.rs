//! The server's three registries.
//!
//! Agents and connections are kept by identifier together with the handle
//! of the outbound queue that reaches them; sessions are kept by session
//! identifier. The registries are `DashMap`s. Every operation that changes
//! one takes the owning value by `&mut`, so within the library a registry
//! has one writer at a time and its contents are a function of its value.

use vstd::prelude::*;
use dashmap::DashMap;
use crate::text::copy_of;

verus! {

/// The handle of a client's outbound queue. The program around the library
/// keeps the queue itself and finds it again by this number.
pub type ClientTx = u64;

/// What the agent registry keeps for a registered agent.
#[derive(Debug, Clone, Copy, PartialEq, Eq)]
pub struct AgentInfo {
    /// The outbound queue of the connection that registered the agent.
    pub tx: ClientTx,
}

/// A tunnel between a controller and an agent.
#[derive(Debug, PartialEq, Eq)]
pub struct TunnelSession {
    /// The identifier of the session.
    pub session_id: String,
    /// The agent the tunnel leads to.
    pub agent_id: String,
    /// The connection of the controller that asked for the tunnel.
    pub controller_id: String,
    /// The host the agent dials for each stream.
    pub remote_host: String,
    /// The port the agent dials for each stream.
    pub remote_port: u16,
}

/// What a `TunnelSession` says.
pub ghost struct Session {
    pub session_id: Seq<char>,
    pub agent_id: Seq<char>,
    pub controller_id: Seq<char>,
    pub remote_host: Seq<char>,
    pub remote_port: u16,
}

impl View for TunnelSession {
    type V = Session;

    open spec fn view(&self) -> Session {
        Session {
            session_id: self.session_id@,
            agent_id: self.agent_id@,
            controller_id: self.controller_id@,
            remote_host: self.remote_host@,
            remote_port: self.remote_port,
        }
    }
}

impl Clone for TunnelSession {
    fn clone(&self) -> (r: Self)
        ensures
            r@ == self@,
    {
        TunnelSession {
            session_id: copy_of(&self.session_id),
            agent_id: copy_of(&self.agent_id),
            controller_id: copy_of(&self.controller_id),
            remote_host: copy_of(&self.remote_host),
            remote_port: self.remote_port,
        }
    }
}

/// The concurrent map of the `dashmap` crate, opaque to the verifier.
#[verifier::external_type_specification]
#[verifier::external_body]
#[verifier::reject_recursive_types(K)]
#[verifier::reject_recursive_types(V)]
#[verifier::reject_recursive_types(S)]
pub struct ExDashMap<K, V, S>(DashMap<K, V, S>);

/// What a registry of queue handles holds: each key with its handle.
pub uninterp spec fn queue_entries(m: DashMap<String, u64>) -> Map<Seq<char>, u64>;

/// What a registry of sessions holds: each key with what its session says.
pub uninterp spec fn session_entries(m: DashMap<String, TunnelSession>) -> Map<Seq<char>, Session>;

/// The registry of queue handles that binds no key.
pub open spec fn no_queues() -> Map<Seq<char>, u64> {
    Map::empty()
}

/// The registry of sessions that binds no key.
pub open spec fn no_sessions() -> Map<Seq<char>, Session> {
    Map::empty()
}

/// Whether `keys` lists every member of `dom` exactly once, and nothing
/// else. The order is left open.
pub open spec fn lists_keys(keys: Seq<String>, dom: Set<Seq<char>>) -> bool {
    &&& forall|i: int| 0 <= i < keys.len() ==> dom.contains(#[trigger] keys[i]@)
    &&& forall|k: Seq<char>| #[trigger]
        dom.contains(k) ==> exists|i: int| 0 <= i < keys.len() && #[trigger] keys[i]@ == k
    &&& forall|i: int, j: int| 0 <= i < j < keys.len() ==> #[trigger] keys[i]@ != #[trigger] keys[j]@
}

/// `DashMap::new`: a map that holds nothing.
#[verifier::external_body]
pub(crate) fn queues_new() -> (r: DashMap<String, u64>)
    ensures
        queue_entries(r) == no_queues(),
{
    DashMap::new()
}

/// `DashMap::insert`: afterwards `key` is bound to `value` and every other
/// key is as before.
#[verifier::external_body]
pub(crate) fn queues_insert(m: &mut DashMap<String, u64>, key: String, value: u64)
    ensures
        queue_entries(*final(m)) == queue_entries(*old(m)).insert(key@, value),
{
    m.insert(key, value);
}

/// `DashMap::get`: the handle bound to `key`, if the map holds `key`.
#[verifier::external_body]
pub(crate) fn queues_get(m: &DashMap<String, u64>, key: &str) -> (r: Option<u64>)
    ensures
        r == (if queue_entries(*m).contains_key(key@) {
            Some(queue_entries(*m)[key@])
        } else {
            None
        }),
{
    m.get(key).map(|e| *e.value())
}

/// `DashMap::remove`: afterwards `key` is unbound and every other key is as
/// before.
#[verifier::external_body]
pub(crate) fn queues_remove(m: &mut DashMap<String, u64>, key: &str)
    ensures
        queue_entries(*final(m)) == queue_entries(*old(m)).remove(key@),
{
    m.remove(key);
}

/// `DashMap::iter`, keeping the key of each entry: every key of the map
/// once, in the order the map yields them.
#[verifier::external_body]
pub(crate) fn queues_keys(m: &DashMap<String, u64>) -> (r: Vec<String>)
    ensures
        lists_keys(r@, queue_entries(*m).dom()),
{
    m.iter().map(|e| e.key().clone()).collect()
}

/// `DashMap::new`: a map that holds nothing.
#[verifier::external_body]
pub(crate) fn sessions_new() -> (r: DashMap<String, TunnelSession>)
    ensures
        session_entries(r) == no_sessions(),
{
    DashMap::new()
}

/// `DashMap::insert`: afterwards `key` is bound to `value` and every other
/// key is as before.
#[verifier::external_body]
pub(crate) fn sessions_insert(m: &mut DashMap<String, TunnelSession>, key: String, value: TunnelSession)
    ensures
        session_entries(*final(m)) == session_entries(*old(m)).insert(key@, value@),
{
    m.insert(key, value);
}

/// `DashMap::get`: a copy of the session bound to `key`, if the map holds
/// `key`.
#[verifier::external_body]
pub(crate) fn sessions_get(m: &DashMap<String, TunnelSession>, key: &str) -> (r: Option<TunnelSession>)
    ensures
        r is Some == session_entries(*m).contains_key(key@),
        r matches Some(s) ==> s@ == session_entries(*m)[key@],
{
    m.get(key).map(|e| e.value().clone())
}

/// `DashMap::remove`: afterwards `key` is unbound and every other key is as
/// before.
#[verifier::external_body]
pub(crate) fn sessions_remove(m: &mut DashMap<String, TunnelSession>, key: &str)
    ensures
        session_entries(*final(m)) == session_entries(*old(m)).remove(key@),
{
    m.remove(key);
}

/// `DashMap::iter`, keeping the key of each entry: every key of the map
/// once, in the order the map yields them.
#[verifier::external_body]
pub(crate) fn sessions_keys(m: &DashMap<String, TunnelSession>) -> (r: Vec<String>)
    ensures
        lists_keys(r@, session_entries(*m).dom()),
{
    m.iter().map(|e| e.key().clone()).collect()
}

/// The state of the relay server.
pub struct AppState {
    /// The registered agents, by agent identifier.
    pub agents: DashMap<String, u64>,
    /// The live connections, agents and controllers alike, by connection
    /// identifier.
    pub connections: DashMap<String, u64>,
    /// The live tunnels, by session identifier.
    pub sessions: DashMap<String, TunnelSession>,
}

/// What the three registries hold.
pub ghost struct Registries {
    pub agents: Map<Seq<char>, u64>,
    pub connections: Map<Seq<char>, u64>,
    pub sessions: Map<Seq<char>, Session>,
}

impl View for AppState {
    type V = Registries;

    open spec fn view(&self) -> Registries {
        Registries {
            agents: queue_entries(self.agents),
            connections: queue_entries(self.connections),
            sessions: session_entries(self.sessions),
        }
    }
}

impl Registries {
    /// Every session is kept under its own identifier and names an agent
    /// that is registered and a controller whose connection is live.
    pub open spec fn anchored(self) -> bool {
        forall|sid: Seq<char>| #[trigger]
            self.sessions.contains_key(sid) ==> {
                &&& self.sessions[sid].session_id == sid
                &&& self.agents.contains_key(self.sessions[sid].agent_id)
                &&& self.connections.contains_key(self.sessions[sid].controller_id)
            }
    }
}

impl AppState {
    /// A server state with three empty registries.
    pub fn new() -> (r: Self)
        ensures
            r@.agents == no_queues(),
            r@.connections == no_queues(),
            r@.sessions == no_sessions(),
            r@.anchored(),
    {
        AppState { agents: queues_new(), connections: queues_new(), sessions: sessions_new() }
    }

    /// What the agent registry keeps for `agent_id`, if it is registered.
    pub fn agent(&self, agent_id: &str) -> (r: Option<AgentInfo>)
        ensures
            r is Some == self@.agents.contains_key(agent_id@),
            r matches Some(info) ==> info.tx == self@.agents[agent_id@],
    {
        match queues_get(&self.agents, agent_id) {
            Some(tx) => Some(AgentInfo { tx }),
            None => None,
        }
    }
}

} // verus!

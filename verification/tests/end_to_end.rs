use tunnel_relay::client::actions::ClientAction;
use tunnel_relay::client::agent::{handle_server_message, run_agent_loop, LinkEvent};
use tunnel_relay::client::commands::{connect_to_agent, get_agent_info, get_tunnels};
use tunnel_relay::client::relay::{handle_stream_relay, stream_accepted, RelayEvent};
use tunnel_relay::client::state::AgentState;
use tunnel_relay::protocol::WsMessage;
use tunnel_relay::server::handlers::{connection_opened, handle_message, Outbound};
use tunnel_relay::server::state::AppState;

/// A server, an agent client on queue 1 and a controller client on
/// queue 2, wired together by hand.
struct World {
    server: AppState,
    agent: AgentState,
    agent_conn: String,
    agent_seen: Option<String>,
    controller: AgentState,
    controller_conn: String,
    controller_seen: Option<String>,
    /// What the agent wrote to the TCP connection of its target.
    at_target: Vec<u8>,
    /// What the controller wrote to its local TCP connection.
    at_local: Vec<u8>,
    /// Dials the agent was asked for: (session, stream, key, host, port).
    dials: Vec<(String, String, String, String, u16)>,
    listens: Vec<(String, u16)>,
}

impl World {
    fn new() -> World {
        let mut server = AppState::new();
        let agent_conn = connection_opened(&mut server, 1);
        let controller_conn = connection_opened(&mut server, 2);
        let mut w = World {
            server,
            agent: AgentState::new(),
            agent_conn,
            agent_seen: None,
            controller: AgentState::new(),
            controller_conn,
            controller_seen: None,
            at_target: Vec::new(),
            at_local: Vec::new(),
            dials: Vec::new(),
            listens: Vec::new(),
        };
        let up = run_agent_loop(&mut w.agent, LinkEvent::Up { tx: 1 });
        w.from_client(1, up);
        let up = run_agent_loop(&mut w.controller, LinkEvent::Up { tx: 2 });
        w.from_client(2, up);
        w
    }

    /// Performs what a client was told to do; frames go to the server.
    fn from_client(&mut self, who: u64, actions: Vec<ClientAction>) {
        for a in actions {
            match a {
                ClientAction::Send(frame) => {
                    let out = if who == 1 {
                        handle_message(&mut self.server, &self.agent_conn, 1, &mut self.agent_seen, frame)
                    } else {
                        handle_message(&mut self.server, &self.controller_conn, 2, &mut self.controller_seen, frame)
                    };
                    self.from_server(out);
                }
                ClientAction::Deliver { channel_key, data } => {
                    let (session, stream, role) = ("S", channel_key.split('-').nth(1).unwrap().to_string(), if who == 1 { "agent" } else { "controller" });
                    let state = if who == 1 { &mut self.agent } else { &mut self.controller };
                    let (acts, _) = handle_stream_relay(state, session, &stream, &channel_key, role, RelayEvent::Inbound(data));
                    self.from_client(who, acts);
                }
                ClientAction::Write { data } => {
                    if who == 1 {
                        self.at_target.extend(data);
                    } else {
                        self.at_local.extend(data);
                    }
                }
                ClientAction::Dial { session_id, stream_id, channel_key, remote_host, remote_port } => {
                    self.dials.push((session_id, stream_id, channel_key, remote_host, remote_port));
                }
                ClientAction::Listen { session_id, local_port } => self.listens.push((session_id, local_port)),
                _ => {}
            }
        }
    }

    /// Hands each queued frame to the client that owns the queue.
    fn from_server(&mut self, out: Vec<Outbound>) {
        for o in out {
            if o.tx == 1 {
                let acts = handle_server_message(&mut self.agent, o.msg);
                self.from_client(1, acts);
            } else {
                let acts = handle_server_message(&mut self.controller, o.msg);
                self.from_client(2, acts);
            }
        }
    }
}

#[test]
fn tunnel_setup_and_single_stream() {
    let mut w = World::new();
    let agent_id = get_agent_info(&w.agent).agent_id;
    assert_eq!(agent_id.len(), 9);
    let c = connect_to_agent(&mut w.controller, agent_id, "127.0.0.1".to_string(), 22, 2222).unwrap();
    assert!(c.session_id.starts_with("pending-"));
    w.from_client(2, c.actions);
    assert_eq!(w.listens.len(), 1);
    let (sid, port) = w.listens[0].clone();
    assert_eq!(port, 2222);
    assert_eq!(get_tunnels(&w.controller)[0].session_id, sid);
    assert_eq!(get_tunnels(&w.controller)[0].status, "active");
    assert_eq!(get_tunnels(&w.agent)[0].session_id, sid);
    assert_eq!(get_tunnels(&w.agent)[0].direction, "incoming");

    let opened = stream_accepted(&mut w.controller, &sid);
    let stream = match &opened[0] {
        ClientAction::Send(WsMessage::StreamOpen { stream_id, .. }) => stream_id.clone(),
        other => panic!("unexpected action {:?}", other),
    };
    w.from_client(2, opened);
    assert_eq!(w.dials, vec![(sid.clone(), stream.clone(), format!("agent-{}", stream), "127.0.0.1".to_string(), 22)]);

    let key = format!("controller-{}", stream);
    let (acts, on) = handle_stream_relay(&mut w.controller, &sid, &stream, &key, "controller", RelayEvent::Chunk(b"hello".to_vec()));
    assert!(on);
    assert_eq!(acts.len(), 1);
    assert!(matches!(&acts[0], ClientAction::Send(WsMessage::Data { .. })));
    w.from_client(2, acts);
    assert_eq!(w.at_target, b"hello");
    assert!(w.at_local.is_empty());
}

#[test]
fn bidirectional_echo() {
    let mut w = World::new();
    let agent_id = get_agent_info(&w.agent).agent_id;
    let c = connect_to_agent(&mut w.controller, agent_id, "127.0.0.1".to_string(), 7, 7007).unwrap();
    w.from_client(2, c.actions);
    let sid = w.listens[0].0.clone();
    let opened = stream_accepted(&mut w.controller, &sid);
    w.from_client(2, opened);
    let stream = w.dials[0].1.clone();
    let (acts, _) = handle_stream_relay(
        &mut w.controller,
        &sid,
        &stream,
        &format!("controller-{}", stream),
        "controller",
        RelayEvent::Chunk(b"ping\n".to_vec()),
    );
    w.from_client(2, acts);
    assert_eq!(w.at_target, b"ping\n");
    let echoed = w.at_target.clone();
    let (acts, _) = handle_stream_relay(&mut w.agent, &sid, &stream, &format!("agent-{}", stream), "agent", RelayEvent::Chunk(echoed));
    w.from_client(1, acts);
    assert_eq!(w.at_local, b"ping\n");
}

#[test]
fn closing_one_end_closes_the_stream_at_the_other() {
    let mut w = World::new();
    let agent_id = get_agent_info(&w.agent).agent_id;
    let c = connect_to_agent(&mut w.controller, agent_id, "127.0.0.1".to_string(), 22, 2222).unwrap();
    w.from_client(2, c.actions);
    let sid = w.listens[0].0.clone();
    let opened = stream_accepted(&mut w.controller, &sid);
    w.from_client(2, opened);
    let stream = w.dials[0].1.clone();
    assert!(w.agent.data_channels.contains_key(&format!("agent-{}", stream)));
    let (acts, on) = handle_stream_relay(
        &mut w.controller,
        &sid,
        &stream,
        &format!("controller-{}", stream),
        "controller",
        RelayEvent::Chunk(Vec::new()),
    );
    assert!(!on);
    w.from_client(2, acts);
    assert_eq!(w.controller.data_channels.len(), 0);
    assert_eq!(w.agent.data_channels.len(), 0);
}

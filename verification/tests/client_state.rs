use tunnel_relay::client::actions::{ClientAction, UiEvent};
use tunnel_relay::client::agent::{
    channel_key, deliver_data, handle_server_message, run_agent_loop, LinkEvent, HEARTBEAT_SECS,
    RECONNECT_DELAY_SECS,
};
use tunnel_relay::client::commands::{
    connect_to_agent, disconnect_tunnel, get_agent_info, get_tunnels, request_tunnel, set_server_url,
};
use tunnel_relay::client::state::{AgentState, TunnelInfo, DEFAULT_SERVER_URL};
use tunnel_relay::protocol::WsMessage;

fn connected_client() -> AgentState {
    let mut st = AgentState::new();
    run_agent_loop(&mut st, LinkEvent::Up { tx: 1 });
    st
}

fn emit(e: UiEvent) -> ClientAction {
    ClientAction::Emit(e)
}

#[test]
fn new_client_state() {
    let st = AgentState::new();
    assert_eq!(st.agent_id, "");
    assert_eq!(st.server_url, "ws://127.0.0.1:7070/ws");
    assert_eq!(DEFAULT_SERVER_URL, "ws://127.0.0.1:7070/ws");
    assert!(!st.connected);
    assert!(st.ws_tx.is_none());
    assert!(st.tunnels.is_empty());
    assert_eq!(st.pending_connects.len(), 0);
    assert_eq!(st.data_channels.len(), 0);
    assert_eq!(st.agent_tunnels.len(), 0);
    assert_eq!(st.task_handles.len(), 0);
}

#[test]
fn agent_info_before_and_after_registration() {
    let mut st = AgentState::new();
    let info = get_agent_info(&st);
    assert_eq!(info.agent_id, "");
    assert!(!info.connected);
    assert_eq!(info.server_url, DEFAULT_SERVER_URL);
    run_agent_loop(&mut st, LinkEvent::Up { tx: 1 });
    let out = handle_server_message(&mut st, WsMessage::RegisterOk { agent_id: "A3F8-B2C1".to_string() });
    assert_eq!(out, vec![emit(UiEvent::Registered("A3F8-B2C1".to_string()))]);
    let info = get_agent_info(&st);
    assert_eq!(info.agent_id, "A3F8-B2C1");
    assert!(info.connected);
}

#[test]
fn server_url_is_used_by_the_next_attempt() {
    let mut st = AgentState::new();
    set_server_url(&mut st, "ws://relay.example:7070/ws".to_string());
    assert_eq!(get_agent_info(&st).server_url, "ws://relay.example:7070/ws");
    let out = run_agent_loop(&mut st, LinkEvent::Attempt);
    assert_eq!(
        out,
        vec![
            emit(UiEvent::ConnectionStatus(false)),
            ClientAction::Connect { server_url: "ws://relay.example:7070/ws".to_string() },
        ]
    );
}

#[test]
fn link_up_registers() {
    let mut st = AgentState::new();
    let out = run_agent_loop(&mut st, LinkEvent::Up { tx: 5 });
    assert_eq!(
        out,
        vec![
            emit(UiEvent::ConnectionStatus(true)),
            ClientAction::Send(WsMessage::Register),
            ClientAction::StartLink { heartbeat_secs: 30 },
        ]
    );
    assert!(st.connected);
    assert_eq!(st.ws_tx, Some(5));
    assert_eq!(HEARTBEAT_SECS, 30);
}

#[test]
fn failed_attempt_waits_three_seconds() {
    let mut st = AgentState::new();
    assert_eq!(run_agent_loop(&mut st, LinkEvent::Failed), vec![ClientAction::Sleep { secs: 3 }]);
    assert_eq!(RECONNECT_DELAY_SECS, 3);
    assert!(!st.connected);
}

#[test]
fn disconnect_cleans_everything() {
    let mut st = connected_client();
    handle_server_message(
        &mut st,
        WsMessage::TunnelRequest { session_id: "s1".to_string(), remote_host: "127.0.0.1".to_string(), remote_port: 22 },
    );
    handle_server_message(&mut st, WsMessage::StreamOpen { session_id: "s1".to_string(), stream_id: "x1".to_string() });
    handle_server_message(&mut st, WsMessage::StreamOpen { session_id: "s1".to_string(), stream_id: "x2".to_string() });
    st.track_task("s1".to_string(), 10);
    st.track_task("s2".to_string(), 20);
    st.track_task("s1".to_string(), 11);
    request_tunnel(&mut st, "BBBB-0000".to_string(), "h".to_string(), 80, 8080, "0a0b0c0d").unwrap();
    let out = run_agent_loop(&mut st, LinkEvent::Down);
    assert_eq!(
        out,
        vec![
            ClientAction::StopLink,
            ClientAction::CloseChannel { channel_key: "agent-x1".to_string() },
            ClientAction::CloseChannel { channel_key: "agent-x2".to_string() },
            ClientAction::Abort { task: 20 },
            ClientAction::Abort { task: 10 },
            ClientAction::Abort { task: 11 },
            emit(UiEvent::TunnelsUpdated),
            emit(UiEvent::ConnectionStatus(false)),
            ClientAction::Sleep { secs: 3 },
        ]
    );
    assert!(!st.connected);
    assert!(st.ws_tx.is_none());
    assert_eq!(st.data_channels.len(), 0);
    assert_eq!(st.agent_tunnels.len(), 0);
    assert_eq!(st.task_handles.len(), 0);
    assert!(st.tunnels.is_empty());
    assert_eq!(st.pending_connects.len(), 1);
}

#[test]
fn reconnect_after_loss_registers_again() {
    let mut st = connected_client();
    handle_server_message(&mut st, WsMessage::RegisterOk { agent_id: "AAAA-0001".to_string() });
    let down = run_agent_loop(&mut st, LinkEvent::Down);
    assert_eq!(down.last(), Some(&ClientAction::Sleep { secs: 3 }));
    let attempt = run_agent_loop(&mut st, LinkEvent::Attempt);
    assert_eq!(attempt[1], ClientAction::Connect { server_url: DEFAULT_SERVER_URL.to_string() });
    let up = run_agent_loop(&mut st, LinkEvent::Up { tx: 2 });
    assert_eq!(up[1], ClientAction::Send(WsMessage::Register));
    handle_server_message(&mut st, WsMessage::RegisterOk { agent_id: "BBBB-0002".to_string() });
    assert_eq!(get_agent_info(&st).agent_id, "BBBB-0002");
}

#[test]
fn tunnel_request_is_accepted() {
    let mut st = connected_client();
    let out = handle_server_message(
        &mut st,
        WsMessage::TunnelRequest { session_id: "s1".to_string(), remote_host: "127.0.0.1".to_string(), remote_port: 22 },
    );
    assert_eq!(
        out,
        vec![
            ClientAction::Send(WsMessage::TunnelAccept { session_id: "s1".to_string() }),
            emit(UiEvent::TunnelsUpdated),
        ]
    );
    assert_eq!(
        get_tunnels(&st),
        vec![TunnelInfo {
            session_id: "s1".to_string(),
            remote_host: "127.0.0.1".to_string(),
            remote_port: 22,
            local_port: 0,
            direction: "incoming".to_string(),
            status: "active".to_string(),
        }]
    );
    let target = st.agent_tunnels.get("s1").unwrap();
    assert_eq!(target.remote_host, "127.0.0.1");
    assert_eq!(target.remote_port, 22);
}

#[test]
fn connect_needs_a_link() {
    let mut st = AgentState::new();
    let r = connect_to_agent(&mut st, "A3F8-B2C1".to_string(), "127.0.0.1".to_string(), 22, 2222);
    assert_eq!(r, Err("Not connected to server".to_string()));
    assert!(st.tunnels.is_empty());
    assert_eq!(st.pending_connects.len(), 0);
    let r = request_tunnel(&mut st, "A3F8-B2C1".to_string(), "127.0.0.1".to_string(), 22, 2222, "00000000");
    assert_eq!(r.err(), Some("Not connected to server".to_string()));
}

#[test]
fn connect_lists_a_placeholder() {
    let mut st = connected_client();
    let c = connect_to_agent(&mut st, "A3F8-B2C1".to_string(), "127.0.0.1".to_string(), 22, 2222).unwrap();
    assert!(c.session_id.starts_with("pending-"));
    let token = &c.session_id["pending-".len()..];
    assert_eq!(token.len(), 8);
    assert!(token.bytes().all(|b| b.is_ascii_digit() || (b'a'..=b'f').contains(&b)));
    assert_eq!(
        c.actions,
        vec![
            ClientAction::Send(WsMessage::Connect {
                target_id: "A3F8-B2C1".to_string(),
                remote_host: "127.0.0.1".to_string(),
                remote_port: 22,
            }),
            emit(UiEvent::TunnelsUpdated),
        ]
    );
    let tunnels = get_tunnels(&st);
    assert_eq!(tunnels.len(), 1);
    assert_eq!(tunnels[0].session_id, c.session_id);
    assert_eq!(tunnels[0].direction, "outgoing");
    assert_eq!(tunnels[0].status, "connecting");
    assert_eq!(tunnels[0].local_port, 2222);
    let p = st.pending_connects.get("A3F8-B2C1").unwrap();
    assert_eq!((p.local_port, p.remote_host.as_str(), p.remote_port), (2222, "127.0.0.1", 22));
}

#[test]
fn tunnel_ready_promotes_the_first_waiting_tunnel() {
    let mut st = connected_client();
    handle_server_message(
        &mut st,
        WsMessage::TunnelRequest { session_id: "in1".to_string(), remote_host: "h".to_string(), remote_port: 1 },
    );
    let first = request_tunnel(&mut st, "AAAA-0001".to_string(), "h1".to_string(), 22, 2201, "11111111").unwrap();
    let second = request_tunnel(&mut st, "AAAA-0002".to_string(), "h2".to_string(), 23, 2202, "22222222").unwrap();
    assert_eq!(first.session_id, "pending-11111111");
    assert_eq!(second.session_id, "pending-22222222");
    let out = handle_server_message(&mut st, WsMessage::TunnelReady { session_id: "real0001".to_string() });
    assert_eq!(
        out,
        vec![emit(UiEvent::TunnelsUpdated), ClientAction::Listen { session_id: "real0001".to_string(), local_port: 2201 }]
    );
    let tunnels = get_tunnels(&st);
    assert_eq!(tunnels[0].session_id, "in1");
    assert_eq!((tunnels[1].session_id.as_str(), tunnels[1].status.as_str()), ("real0001", "active"));
    assert_eq!((tunnels[2].session_id.as_str(), tunnels[2].status.as_str()), ("pending-22222222", "connecting"));
    assert_eq!(st.pending_connects.len(), 1);
    assert!(st.pending_connects.get("AAAA-0002").is_some());
    let out = handle_server_message(&mut st, WsMessage::TunnelReady { session_id: "real0002".to_string() });
    assert_eq!(out[1], ClientAction::Listen { session_id: "real0002".to_string(), local_port: 2202 });
    assert_eq!(st.pending_connects.len(), 0);
    let out = handle_server_message(&mut st, WsMessage::TunnelReady { session_id: "real0003".to_string() });
    assert_eq!(out, vec![emit(UiEvent::TunnelsUpdated)]);
    assert_eq!(get_tunnels(&st).len(), 3);
}

#[test]
fn stream_open_registers_the_buffer_before_the_dial() {
    let mut st = connected_client();
    handle_server_message(
        &mut st,
        WsMessage::TunnelRequest { session_id: "s1".to_string(), remote_host: "10.0.0.5".to_string(), remote_port: 3000 },
    );
    let out = handle_server_message(&mut st, WsMessage::StreamOpen { session_id: "s1".to_string(), stream_id: "ab12cd34".to_string() });
    assert_eq!(
        out,
        vec![
            ClientAction::OpenChannel { channel_key: "agent-ab12cd34".to_string() },
            ClientAction::Dial {
                session_id: "s1".to_string(),
                stream_id: "ab12cd34".to_string(),
                channel_key: "agent-ab12cd34".to_string(),
                remote_host: "10.0.0.5".to_string(),
                remote_port: 3000,
            },
        ]
    );
    assert!(st.data_channels.contains_key("agent-ab12cd34"));
    let out = handle_server_message(&mut st, WsMessage::StreamOpen { session_id: "nope".to_string(), stream_id: "ffffffff".to_string() });
    assert!(out.is_empty());
    assert!(!st.data_channels.contains_key("agent-ffffffff"));
}

#[test]
fn stream_close_drops_both_keys() {
    let mut st = connected_client();
    st.data_channels.insert("agent-x".to_string(), ());
    st.data_channels.insert("controller-x".to_string(), ());
    st.data_channels.insert("agent-y".to_string(), ());
    let out = handle_server_message(&mut st, WsMessage::StreamClose { session_id: "s".to_string(), stream_id: "x".to_string() });
    assert_eq!(
        out,
        vec![
            ClientAction::CloseChannel { channel_key: "agent-x".to_string() },
            ClientAction::CloseChannel { channel_key: "controller-x".to_string() },
        ]
    );
    assert_eq!(st.data_channels.len(), 1);
    assert!(st.data_channels.contains_key("agent-y"));
    let out = handle_server_message(&mut st, WsMessage::StreamClose { session_id: "s".to_string(), stream_id: "x".to_string() });
    assert!(out.is_empty());
}

#[test]
fn tunnel_close_cancels_the_tasks_of_the_session() {
    let mut st = connected_client();
    handle_server_message(
        &mut st,
        WsMessage::TunnelRequest { session_id: "s1".to_string(), remote_host: "h".to_string(), remote_port: 1 },
    );
    handle_server_message(
        &mut st,
        WsMessage::TunnelRequest { session_id: "s2".to_string(), remote_host: "h".to_string(), remote_port: 2 },
    );
    st.track_task("s1".to_string(), 7);
    st.track_task("s2".to_string(), 8);
    st.track_task("s1".to_string(), 9);
    let out = handle_server_message(&mut st, WsMessage::TunnelClose { session_id: "s1".to_string() });
    assert_eq!(out, vec![ClientAction::Abort { task: 7 }, ClientAction::Abort { task: 9 }, emit(UiEvent::TunnelsUpdated)]);
    assert!(st.agent_tunnels.get("s1").is_none());
    assert!(st.agent_tunnels.get("s2").is_some());
    assert_eq!(get_tunnels(&st).len(), 1);
    assert_eq!(get_tunnels(&st)[0].session_id, "s2");
    assert_eq!(st.abort_session_tasks("s1"), Vec::<u64>::new());
    assert_eq!(st.abort_all_tasks(), vec![8]);
    assert_eq!(st.task_handles.len(), 0);
}

#[test]
fn data_is_decoded_and_delivered_to_the_other_role() {
    let mut st = connected_client();
    st.data_channels.insert("controller-x1".to_string(), ());
    st.data_channels.insert("agent-x2".to_string(), ());
    let frame = |stream: &str, role: &str, payload: &str| WsMessage::Data {
        session_id: "s".to_string(),
        stream_id: stream.to_string(),
        role: role.to_string(),
        payload: payload.to_string(),
    };
    assert_eq!(
        handle_server_message(&mut st, frame("x1", "agent", "aGVsbG8=")),
        vec![ClientAction::Deliver { channel_key: "controller-x1".to_string(), data: b"hello".to_vec() }]
    );
    assert_eq!(
        handle_server_message(&mut st, frame("x2", "controller", "cGluZwo=")),
        vec![ClientAction::Deliver { channel_key: "agent-x2".to_string(), data: b"ping\n".to_vec() }]
    );
    assert!(handle_server_message(&mut st, frame("x1", "controller", "aGVsbG8=")).is_empty());
    assert!(handle_server_message(&mut st, frame("x1", "agent", "not base64!")).is_empty());
    assert!(handle_server_message(&mut st, frame("zz", "agent", "aGVsbG8=")).is_empty());
    assert_eq!(st.data_channels.len(), 2);
}

#[test]
fn deliver_data_takes_the_decoded_bytes() {
    let mut st = AgentState::new();
    st.data_channels.insert("agent-s".to_string(), ());
    assert_eq!(
        deliver_data(&st, "s", "controller", Some(vec![1, 2, 3])),
        vec![ClientAction::Deliver { channel_key: "agent-s".to_string(), data: vec![1, 2, 3] }]
    );
    assert_eq!(
        deliver_data(&st, "s", "anything", Some(vec![])),
        vec![ClientAction::Deliver { channel_key: "agent-s".to_string(), data: vec![] }]
    );
    assert!(deliver_data(&st, "s", "agent", Some(vec![1])).is_empty());
    assert!(deliver_data(&st, "s", "controller", None).is_empty());
}

#[test]
fn server_error_is_shown_and_pong_is_ignored() {
    let mut st = connected_client();
    assert_eq!(
        handle_server_message(&mut st, WsMessage::Error { message: "Agent 'ZZZZ-ZZZZ' not found".to_string() }),
        vec![emit(UiEvent::ServerError("Agent 'ZZZZ-ZZZZ' not found".to_string()))]
    );
    assert!(handle_server_message(&mut st, WsMessage::Pong).is_empty());
    assert!(handle_server_message(&mut st, WsMessage::Ping).is_empty());
    assert!(handle_server_message(&mut st, WsMessage::Register).is_empty());
}

#[test]
fn disconnect_tunnel_tells_the_server_when_linked() {
    let mut st = connected_client();
    request_tunnel(&mut st, "AAAA-0001".to_string(), "h".to_string(), 22, 2201, "11111111").unwrap();
    handle_server_message(&mut st, WsMessage::TunnelReady { session_id: "real0001".to_string() });
    let out = disconnect_tunnel(&mut st, "real0001".to_string());
    assert_eq!(
        out,
        vec![ClientAction::Send(WsMessage::TunnelClose { session_id: "real0001".to_string() }), emit(UiEvent::TunnelsUpdated)]
    );
    assert!(get_tunnels(&st).is_empty());
    let mut offline = AgentState::new();
    assert_eq!(disconnect_tunnel(&mut offline, "x".to_string()), vec![emit(UiEvent::TunnelsUpdated)]);
}

#[test]
fn channel_key_joins_role_and_stream() {
    assert_eq!(channel_key("agent", "abc12345"), "agent-abc12345");
    assert_eq!(channel_key("controller", "abc12345"), "controller-abc12345");
}

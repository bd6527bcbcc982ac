use tunnel_relay::client::actions::{ClientAction, UiEvent};
use tunnel_relay::client::agent::handle_server_message;
use tunnel_relay::client::relay::{
    data_frame, end_stream, handle_stream_relay, listen_failed, open_stream, stream_accepted, RelayEvent,
};
use tunnel_relay::client::state::AgentState;
use tunnel_relay::ids::{agent_id_from, generate_agent_id, generate_short_id, hex8, short_id_from};
use tunnel_relay::payload::READ_CHUNK_SIZE;
use tunnel_relay::protocol::WsMessage;
use tunnel_relay::table::Table;
use tunnel_relay::text::{decimal, joined, same_text, to_upper};

fn data(role: &str, payload: &str) -> WsMessage {
    WsMessage::Data {
        session_id: "s1".to_string(),
        stream_id: "x1".to_string(),
        role: role.to_string(),
        payload: payload.to_string(),
    }
}

#[test]
fn chunk_becomes_one_data_frame() {
    let mut st = AgentState::new();
    st.data_channels.insert("controller-x1".to_string(), ());
    let (out, on) = handle_stream_relay(&mut st, "s1", "x1", "controller-x1", "controller", RelayEvent::Chunk(b"hello".to_vec()));
    assert!(on);
    assert_eq!(out, vec![ClientAction::Send(data("controller", "aGVsbG8="))]);
    let (out, on) = handle_stream_relay(&mut st, "s1", "x1", "controller-x1", "controller", RelayEvent::Chunk(vec![0xff, 0xfe]));
    assert!(on);
    assert_eq!(out, vec![ClientAction::Send(data("controller", "//4="))]);
    assert!(st.data_channels.contains_key("controller-x1"));
}

#[test]
fn full_size_chunk_is_encoded() {
    let mut st = AgentState::new();
    assert_eq!(READ_CHUNK_SIZE, 8192);
    let (out, on) = handle_stream_relay(&mut st, "s1", "x1", "agent-x1", "agent", RelayEvent::Chunk(vec![0u8; 8192]));
    assert!(on);
    match &out[0] {
        ClientAction::Send(WsMessage::Data { payload, .. }) => {
            assert_eq!(payload.len(), 10924);
            assert!(payload.starts_with("AAAA"));
            assert!(payload.ends_with("AAA="));
        }
        other => panic!("unexpected action {:?}", other),
    }
}

#[test]
fn zero_length_read_ends_the_stream_with_one_close() {
    let mut st = AgentState::new();
    st.data_channels.insert("agent-x1".to_string(), ());
    st.data_channels.insert("agent-x2".to_string(), ());
    let (out, on) = handle_stream_relay(&mut st, "s1", "x1", "agent-x1", "agent", RelayEvent::Chunk(Vec::new()));
    assert!(!on);
    assert_eq!(
        out,
        vec![
            ClientAction::CloseChannel { channel_key: "agent-x1".to_string() },
            ClientAction::Send(WsMessage::StreamClose { session_id: "s1".to_string(), stream_id: "x1".to_string() }),
        ]
    );
    let closes = out.iter().filter(|a| matches!(a, ClientAction::Send(WsMessage::StreamClose { .. }))).count();
    assert_eq!(closes, 1);
    assert!(!st.data_channels.contains_key("agent-x1"));
    assert!(st.data_channels.contains_key("agent-x2"));
}

#[test]
fn every_other_ending_closes_the_stream_too() {
    for (i, event) in [RelayEvent::ReadFailed, RelayEvent::InboundClosed, RelayEvent::WriteFailed, RelayEvent::QueueClosed]
        .into_iter()
        .enumerate()
    {
        let mut st = AgentState::new();
        st.data_channels.insert("controller-x1".to_string(), ());
        let (out, on) = handle_stream_relay(&mut st, "s1", "x1", "controller-x1", "controller", event);
        assert!(!on, "event {}", i);
        assert_eq!(out.len(), 2);
        assert_eq!(
            out[1],
            ClientAction::Send(WsMessage::StreamClose { session_id: "s1".to_string(), stream_id: "x1".to_string() })
        );
        assert_eq!(st.data_channels.len(), 0);
    }
}

#[test]
fn inbound_bytes_are_written_whole() {
    let mut st = AgentState::new();
    let (out, on) = handle_stream_relay(&mut st, "s1", "x1", "agent-x1", "agent", RelayEvent::Inbound(b"ping\n".to_vec()));
    assert!(on);
    assert_eq!(out, vec![ClientAction::Write { data: b"ping\n".to_vec() }]);
}

#[test]
fn failed_dial_ends_the_stream() {
    let mut st = AgentState::new();
    st.data_channels.insert("agent-x1".to_string(), ());
    let out = end_stream(&mut st, "s1", "x1", "agent-x1");
    assert_eq!(
        out,
        vec![
            ClientAction::CloseChannel { channel_key: "agent-x1".to_string() },
            ClientAction::Send(WsMessage::StreamClose { session_id: "s1".to_string(), stream_id: "x1".to_string() }),
        ]
    );
    assert_eq!(st.data_channels.len(), 0);
}

#[test]
fn accepted_connection_opens_a_stream() {
    let mut st = AgentState::new();
    let out = open_stream(&mut st, "s1", "ab12cd34".to_string());
    assert_eq!(
        out,
        vec![
            ClientAction::Send(WsMessage::StreamOpen { session_id: "s1".to_string(), stream_id: "ab12cd34".to_string() }),
            ClientAction::OpenChannel { channel_key: "controller-ab12cd34".to_string() },
            ClientAction::Relay {
                session_id: "s1".to_string(),
                stream_id: "ab12cd34".to_string(),
                channel_key: "controller-ab12cd34".to_string(),
            },
        ]
    );
    assert!(st.data_channels.contains_key("controller-ab12cd34"));
}

#[test]
fn two_concurrent_streams() {
    let mut st = AgentState::new();
    let a = stream_accepted(&mut st, "s1");
    let b = stream_accepted(&mut st, "s1");
    let id_of = |acts: &Vec<ClientAction>| match &acts[0] {
        ClientAction::Send(WsMessage::StreamOpen { stream_id, .. }) => stream_id.clone(),
        other => panic!("unexpected action {:?}", other),
    };
    let (ia, ib) = (id_of(&a), id_of(&b));
    assert_ne!(ia, ib);
    assert_eq!(ia.len(), 8);
    assert_eq!(st.data_channels.len(), 2);
    let to_a = WsMessage::Data { session_id: "s1".to_string(), stream_id: ia.clone(), role: "agent".to_string(), payload: "YQ==".to_string() };
    let to_b = WsMessage::Data { session_id: "s1".to_string(), stream_id: ib.clone(), role: "agent".to_string(), payload: "Yg==".to_string() };
    assert_eq!(
        handle_server_message(&mut st, to_b),
        vec![ClientAction::Deliver { channel_key: format!("controller-{}", ib), data: b"b".to_vec() }]
    );
    assert_eq!(
        handle_server_message(&mut st, to_a),
        vec![ClientAction::Deliver { channel_key: format!("controller-{}", ia), data: b"a".to_vec() }]
    );
}

#[test]
fn chunks_arrive_in_order_and_unchanged() {
    let mut sender = AgentState::new();
    let mut receiver = AgentState::new();
    receiver.data_channels.insert("agent-x1".to_string(), ());
    let chunks: Vec<Vec<u8>> = vec![b"GET / HT".to_vec(), vec![0, 255, 128, 10, 13], b"TP/1.1\r\n\r\n".to_vec(), vec![7]];
    let mut arrived: Vec<u8> = Vec::new();
    for c in &chunks {
        let (out, on) = handle_stream_relay(&mut sender, "s1", "x1", "controller-x1", "controller", RelayEvent::Chunk(c.clone()));
        assert!(on);
        let frame = match out.into_iter().next() {
            Some(ClientAction::Send(f)) => f,
            other => panic!("unexpected action {:?}", other),
        };
        for act in handle_server_message(&mut receiver, frame) {
            match act {
                ClientAction::Deliver { channel_key, data } => {
                    assert_eq!(channel_key, "agent-x1");
                    assert_eq!(&data, c);
                    arrived.extend(data);
                }
                other => panic!("unexpected action {:?}", other),
            }
        }
    }
    assert_eq!(arrived, chunks.concat());
}

#[test]
fn bind_failure_is_reported() {
    assert_eq!(
        listen_failed(2222, "Address already in use (os error 98)"),
        vec![ClientAction::Emit(UiEvent::ServerError(
            "Port 2222 unavailable: Address already in use (os error 98)".to_string()
        ))]
    );
    assert_eq!(decimal(0), "0");
    assert_eq!(decimal(9), "9");
    assert_eq!(decimal(10), "10");
    assert_eq!(decimal(7070), "7070");
    assert_eq!(decimal(65535), "65535");
}

#[test]
fn identifiers_are_cut_from_the_uuid_text() {
    assert_eq!(agent_id_from("a3f8b2c1-1111-4222-8333-444444444444"), "A3F8-B2C1");
    assert_eq!(agent_id_from("0123456789"), "0123-4567");
    assert_eq!(short_id_from("a3f8b2c1-1111-4222-8333-444444444444"), "a3f8b2c1");
    let id = generate_agent_id();
    assert_eq!(id.len(), 9);
    assert_eq!(id.as_bytes()[4], b'-');
    assert!(id.bytes().enumerate().all(|(i, b)| i == 4 || b.is_ascii_digit() || (b'A'..=b'F').contains(&b)));
    let s = generate_short_id();
    assert_eq!(s.len(), 8);
    assert!(s.bytes().all(|b| b.is_ascii_digit() || (b'a'..=b'f').contains(&b)));
    assert_ne!(generate_short_id(), generate_short_id());
}

#[test]
fn text_helpers() {
    assert!(same_text("agent", "agent"));
    assert!(!same_text("agent", "controller"));
    assert!(!same_text("agent", "agent "));
    assert_eq!(joined("pending-", "0a0b0c0d"), "pending-0a0b0c0d");
    assert_eq!(joined("", ""), "");
    assert_eq!(to_upper('a'), 'A');
    assert_eq!(to_upper('z'), 'Z');
    assert_eq!(to_upper('F'), 'F');
    assert_eq!(to_upper('7'), '7');
    assert_eq!(to_upper('-'), '-');
}

#[test]
fn table_keeps_keys_once_and_in_order() {
    let mut t: Table<u64> = Table::new();
    assert_eq!(t.len(), 0);
    assert!(t.pop_first().is_none());
    t.insert("b".to_string(), 1);
    t.insert("a".to_string(), 2);
    t.insert("b".to_string(), 3);
    t.keys_are_distinct();
    assert_eq!(t.len(), 2);
    assert_eq!(t.get("b"), Some(&3));
    assert_eq!(t.get("a"), Some(&2));
    assert_eq!(t.get("c"), None);
    assert!(t.contains_key("a"));
    assert!(!t.contains_key("c"));
    assert_eq!(t.remove("c"), None);
    t.insert("c".to_string(), 4);
    assert_eq!(t.pop_first(), Some(("b".to_string(), 3)));
    assert_eq!(t.remove("a"), Some(2));
    assert_eq!(t.len(), 1);
    t.insert("d".to_string(), 5);
    assert_eq!(t.take_all(), (vec!["c".to_string(), "d".to_string()], vec![4, 5]));
    assert_eq!(t.len(), 0);
    t.insert("e".to_string(), 6);
    t.clear();
    assert_eq!(t.len(), 0);
    assert!(t.get("e").is_none());
}

#[test]
fn data_frame_carries_the_payload_and_the_names() {
    assert_eq!(
        data_frame("s1", "x1", "agent", "cGluZwo=".to_string()),
        vec![ClientAction::Send(WsMessage::Data {
            session_id: "s1".to_string(),
            stream_id: "x1".to_string(),
            role: "agent".to_string(),
            payload: "cGluZwo=".to_string(),
        })]
    );
    assert_eq!(data_frame("", "", "", String::new()).len(), 1);
}

#[test]
fn numbers_as_eight_hex_digits() {
    assert_eq!(hex8(0), "00000000");
    assert_eq!(hex8(1), "00000001");
    assert_eq!(hex8(0xa3f8b2c1), "a3f8b2c1");
    assert_eq!(hex8(0x0009_00af), "000900af");
    assert_eq!(hex8(u32::MAX), "ffffffff");
}

#[test]
fn one_relay_leaves_the_other_stream_alone() {
    let mut st = AgentState::new();
    st.data_channels.insert("controller-x1".to_string(), ());
    st.data_channels.insert("controller-x2".to_string(), ());
    let (out, on) = handle_stream_relay(&mut st, "s1", "x1", "controller-x1", "controller", RelayEvent::ReadFailed);
    assert!(!on);
    assert_eq!(out[0], ClientAction::CloseChannel { channel_key: "controller-x1".to_string() });
    assert!(st.data_channels.contains_key("controller-x2"));
    let (out, on) = handle_stream_relay(&mut st, "s1", "x2", "controller-x2", "controller", RelayEvent::Chunk(b"b".to_vec()));
    assert!(on);
    assert_eq!(
        out,
        vec![ClientAction::Send(WsMessage::Data {
            session_id: "s1".to_string(),
            stream_id: "x2".to_string(),
            role: "controller".to_string(),
            payload: "Yg==".to_string(),
        })]
    );
}

#[test]
fn inbound_chunks_are_written_one_after_the_other() {
    let mut st = AgentState::new();
    let mut written: Vec<u8> = Vec::new();
    for chunk in [b"pi".to_vec(), b"ng".to_vec(), b"\n".to_vec()] {
        let (out, on) = handle_stream_relay(&mut st, "s1", "x1", "agent-x1", "agent", RelayEvent::Inbound(chunk.clone()));
        assert!(on);
        assert_eq!(out, vec![ClientAction::Write { data: chunk.clone() }]);
        written.extend(chunk);
    }
    assert_eq!(written, b"ping\n");
}

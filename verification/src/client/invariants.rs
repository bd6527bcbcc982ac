//! What holds of the client whatever the server and the sockets do.

use vstd::prelude::*;
use crate::client::actions::Act;
use crate::client::agent::{channel_key_of, delivered, react, supervise, target_key, LinkEvent};
use crate::payload::{base64_decoding, base64_encoding};
use crate::client::relay::{goes_on, relay_step, Happening};
use crate::client::state::ClientModel;
use crate::protocol::Frame;
use crate::table::{lookup, position, without};

verus! {

/// After the link is lost the client is not connected, has no outbound
/// queue, and holds no inbound buffer, no dial address, no task and no
/// tunnel.
pub proof fn lemma_link_loss_leaves_nothing(pre: ClientModel)
    ensures
        !supervise(pre, LinkEvent::Down).state.connected,
        supervise(pre, LinkEvent::Down).state.ws_tx is None,
        supervise(pre, LinkEvent::Down).state.data_channels.len() == 0,
        supervise(pre, LinkEvent::Down).state.agent_tunnels.len() == 0,
        supervise(pre, LinkEvent::Down).state.task_handles.len() == 0,
        supervise(pre, LinkEvent::Down).state.tunnels.len() == 0,
{
}

/// How many of `actions` queue a `StreamClose` for the server.
pub open spec fn stream_closes(actions: Seq<Act>) -> nat
    decreases actions.len(),
{
    if actions.len() == 0 {
        0
    } else {
        let rest = stream_closes(actions.drop_last());
        match actions.last() {
            Act::Send(Frame::StreamClose { .. }) => rest + 1,
            _ => rest,
        }
    }
}

/// A read of no bytes ends the stream: the relay drops the stream's
/// inbound buffer and queues exactly one `StreamClose`, for this stream.
pub proof fn lemma_empty_read_closes_the_stream_once(
    pre: ClientModel,
    session_id: Seq<char>,
    stream_id: Seq<char>,
    channel_key: Seq<char>,
    role: Seq<char>,
)
    ensures
        relay_step(pre, session_id, stream_id, channel_key, role, Happening::Chunk(Seq::empty())).actions
            == seq![
            Act::CloseChannel { channel_key },
            Act::Send(Frame::StreamClose { session_id, stream_id }),
        ],
        stream_closes(
            relay_step(pre, session_id, stream_id, channel_key, role, Happening::Chunk(Seq::empty())).actions,
        ) == 1,
{
    let actions = relay_step(pre, session_id, stream_id, channel_key, role, Happening::Chunk(Seq::empty())).actions;
    let head = seq![Act::CloseChannel { channel_key }];
    assert(actions.drop_last() =~= head);
    assert(head.drop_last() =~= Seq::<Act>::empty());
    assert(stream_closes(Seq::<Act>::empty()) == 0);
    assert(stream_closes(head) == 0);
}

/// The bytes of a list of chunks, one after the other.
pub open spec fn bytes_in_order(chunks: Seq<Seq<u8>>) -> Seq<u8>
    decreases chunks.len(),
{
    if chunks.len() == 0 {
        Seq::empty()
    } else {
        bytes_in_order(chunks.drop_last()) + chunks.last()
    }
}

/// What the client is asked to do for the decoded payloads `chunks` of
/// the `Data` frames that `role` sent on one stream, in the order in which
/// the frames arrived.
pub open spec fn delivered_each(pre: ClientModel, stream_id: Seq<char>, role: Seq<char>, chunks: Seq<Seq<u8>>) -> Seq<
    Act,
>
    decreases chunks.len(),
{
    if chunks.len() == 0 {
        Seq::empty()
    } else {
        delivered_each(pre, stream_id, role, chunks.drop_last()) + delivered(
            pre,
            stream_id,
            role,
            Some(chunks.last()),
        )
    }
}

/// The bytes that `actions` hand to the inbound buffer `channel_key`, in
/// order.
pub open spec fn bytes_handed_to(actions: Seq<Act>, channel_key: Seq<char>) -> Seq<u8>
    decreases actions.len(),
{
    if actions.len() == 0 {
        Seq::empty()
    } else {
        let rest = bytes_handed_to(actions.drop_last(), channel_key);
        match actions.last() {
            Act::Deliver { channel_key: k, data } => if k == channel_key {
                rest + data
            } else {
                rest
            },
            _ => rest,
        }
    }
}

/// The payloads of the frames of one stream reach the stream's inbound
/// buffer one after the other, in the order in which the frames arrived,
/// byte for byte; a stream without a buffer gets nothing.
pub proof fn lemma_payloads_arrive_in_order(
    pre: ClientModel,
    stream_id: Seq<char>,
    role: Seq<char>,
    chunks: Seq<Seq<u8>>,
)
    ensures
        bytes_handed_to(delivered_each(pre, stream_id, role, chunks), target_key(role, stream_id)) == (if lookup(
            pre.data_channels,
            target_key(role, stream_id),
        ) is Some {
            bytes_in_order(chunks)
        } else {
            Seq::empty()
        }),
        delivered_each(pre, stream_id, role, chunks).len() == (if lookup(
            pre.data_channels,
            target_key(role, stream_id),
        ) is Some {
            chunks.len()
        } else {
            0
        }),
    decreases chunks.len(),
{
    let key = target_key(role, stream_id);
    if chunks.len() > 0 {
        lemma_payloads_arrive_in_order(pre, stream_id, role, chunks.drop_last());
        let before = delivered_each(pre, stream_id, role, chunks.drop_last());
        let all = delivered_each(pre, stream_id, role, chunks);
        if lookup(pre.data_channels, key) is Some {
            let last = Act::Deliver { channel_key: key, data: chunks.last() };
            assert(all =~= before.push(last));
            assert(all.drop_last() =~= before);
        } else {
            assert(all =~= before);
        }
    }
}

/// Two messages sent one after the other on one stream arrive as their
/// payloads joined in that order.
pub proof fn lemma_two_payloads_are_joined(
    pre: ClientModel,
    stream_id: Seq<char>,
    role: Seq<char>,
    first: Seq<u8>,
    second: Seq<u8>,
)
    requires
        lookup(pre.data_channels, target_key(role, stream_id)) is Some,
    ensures
        bytes_handed_to(
            delivered(pre, stream_id, role, Some(first)) + delivered(pre, stream_id, role, Some(second)),
            target_key(role, stream_id),
        ) == first + second,
{
    let chunks = seq![first, second];
    lemma_payloads_arrive_in_order(pre, stream_id, role, chunks);
    assert(chunks.drop_last() =~= seq![first]);
    assert(seq![first].drop_last() =~= Seq::<Seq<u8>>::empty());
    assert(delivered_each(pre, stream_id, role, Seq::<Seq<u8>>::empty()) =~= Seq::<Act>::empty());
    assert(delivered_each(pre, stream_id, role, seq![first]) =~= delivered(pre, stream_id, role, Some(first)));
    assert(delivered_each(pre, stream_id, role, chunks) =~= delivered(pre, stream_id, role, Some(first))
        + delivered(pre, stream_id, role, Some(second)));
    assert(bytes_in_order(Seq::<Seq<u8>>::empty()) =~= Seq::<u8>::empty());
    assert(bytes_in_order(seq![first]) =~= first);
    assert(bytes_in_order(chunks) =~= first + second);
}

/// The `Data` frame that carries `chunk` for the side `role`.
pub open spec fn frame_of(session_id: Seq<char>, stream_id: Seq<char>, role: Seq<char>, chunk: Seq<u8>) -> Frame {
    Frame::Data { session_id, stream_id, role, payload: base64_encoding(chunk) }
}

/// A chunk that is not empty is sent as exactly one frame, the one that
/// `frame_of` names, and leaves the sender's state as it was.
pub proof fn lemma_chunk_is_sent_as_one_frame(
    pre: ClientModel,
    session_id: Seq<char>,
    stream_id: Seq<char>,
    channel_key: Seq<char>,
    role: Seq<char>,
    chunk: Seq<u8>,
)
    requires
        chunk.len() > 0,
    ensures
        relay_step(pre, session_id, stream_id, channel_key, role, Happening::Chunk(chunk)).state == pre,
        relay_step(pre, session_id, stream_id, channel_key, role, Happening::Chunk(chunk)).actions == seq![
            Act::Send(frame_of(session_id, stream_id, role, chunk)),
        ],
{
}

/// What the client is asked to do for `frames`, received one after the
/// other in a state that they leave as it is.
pub open spec fn received_each(pre: ClientModel, frames: Seq<Frame>) -> Seq<Act>
    decreases frames.len(),
{
    if frames.len() == 0 {
        Seq::empty()
    } else {
        received_each(pre, frames.drop_last()) + react(pre, frames.last()).actions
    }
}

/// The frames that carry `chunks`, in order.
pub open spec fn frames_of(
    session_id: Seq<char>,
    stream_id: Seq<char>,
    role: Seq<char>,
    chunks: Seq<Seq<u8>>,
) -> Seq<Frame> {
    chunks.map_values(|c: Seq<u8>| frame_of(session_id, stream_id, role, c))
}

/// The bytes read from TCP on one side of a stream are the bytes handed
/// to the stream's inbound buffer on the other side, in order and byte for
/// byte, wherever decoding gives back what was encoded and the receiver
/// holds the buffer. A `Data` frame leaves the receiver's state as it is.
pub proof fn lemma_stream_bytes_arrive_unchanged(
    pre: ClientModel,
    session_id: Seq<char>,
    stream_id: Seq<char>,
    role: Seq<char>,
    chunks: Seq<Seq<u8>>,
)
    requires
        forall|i: int|
            0 <= i < chunks.len() ==> base64_decoding(base64_encoding(#[trigger] chunks[i])) == Some(chunks[i]),
        lookup(pre.data_channels, target_key(role, stream_id)) is Some,
    ensures
        forall|i: int|
            0 <= i < chunks.len() ==> react(pre, #[trigger] frames_of(session_id, stream_id, role, chunks)[i]).state
                == pre,
        received_each(pre, frames_of(session_id, stream_id, role, chunks)) == delivered_each(
            pre,
            stream_id,
            role,
            chunks,
        ),
        bytes_handed_to(
            received_each(pre, frames_of(session_id, stream_id, role, chunks)),
            target_key(role, stream_id),
        ) == bytes_in_order(chunks),
    decreases chunks.len(),
{
    let frames = frames_of(session_id, stream_id, role, chunks);
    if chunks.len() > 0 {
        let shorter = chunks.drop_last();
        assert forall|i: int| 0 <= i < shorter.len() implies base64_decoding(
            base64_encoding(#[trigger] shorter[i]),
        ) == Some(shorter[i]) by {
            assert(shorter[i] == chunks[i]);
        }
        lemma_stream_bytes_arrive_unchanged(pre, session_id, stream_id, role, shorter);
        assert(frames.drop_last() =~= frames_of(session_id, stream_id, role, shorter));
        assert(frames.last() == frame_of(session_id, stream_id, role, chunks.last()));
        assert(chunks.last() == chunks[chunks.len() - 1]);
    }
    lemma_payloads_arrive_in_order(pre, stream_id, role, chunks);
}

/// The payload of a `Data` frame is only ever handed to the buffer of the
/// side opposite to the one named in its `role`: a frame of the agent
/// never reaches an agent's buffer, a frame of the controller never a
/// controller's.
pub proof fn lemma_data_never_returns_to_its_role(
    pre: ClientModel,
    stream_id: Seq<char>,
    role: Seq<char>,
    decoded: Option<Seq<u8>>,
    i: int,
)
    requires
        role == "agent"@ || role == "controller"@,
        0 <= i < delivered(pre, stream_id, role, decoded).len(),
    ensures
        delivered(pre, stream_id, role, decoded)[i] is Deliver,
        delivered(pre, stream_id, role, decoded)[i]->Deliver_channel_key == target_key(role, stream_id),
        target_key(role, stream_id) != channel_key_of(role, stream_id),
{
    reveal_strlit("agent");
    reveal_strlit("controller");
    reveal_strlit("-");
    let own = channel_key_of(role, stream_id);
    let other = target_key(role, stream_id);
    assert(own[0] == role[0]);
    if role == "agent"@ {
        assert(other[0] == "controller"@[0]);
    } else {
        assert("agent"@.len() != "controller"@.len());
        assert(other[0] == "agent"@[0]);
    }
}

/// The bytes that `actions` write to the TCP connection, in order.
pub open spec fn bytes_written(actions: Seq<Act>) -> Seq<u8>
    decreases actions.len(),
{
    if actions.len() == 0 {
        Seq::empty()
    } else {
        let rest = bytes_written(actions.drop_last());
        match actions.last() {
            Act::Write { data } => rest + data,
            _ => rest,
        }
    }
}

/// What the relay of a stream asks for when its inbound buffer yields
/// `chunks` one after the other.
pub open spec fn inbound_each(
    pre: ClientModel,
    session_id: Seq<char>,
    stream_id: Seq<char>,
    channel_key: Seq<char>,
    role: Seq<char>,
    chunks: Seq<Seq<u8>>,
) -> Seq<Act>
    decreases chunks.len(),
{
    if chunks.len() == 0 {
        Seq::empty()
    } else {
        inbound_each(pre, session_id, stream_id, channel_key, role, chunks.drop_last()) + relay_step(
            pre,
            session_id,
            stream_id,
            channel_key,
            role,
            Happening::Inbound(chunks.last()),
        ).actions
    }
}

/// Each chunk that the inbound buffer yields is written once, whole and
/// unchanged, the stream goes on and the state stays as it is; so the
/// bytes written are the chunks one after the other.
pub proof fn lemma_inbound_chunks_are_written_in_order(
    pre: ClientModel,
    session_id: Seq<char>,
    stream_id: Seq<char>,
    channel_key: Seq<char>,
    role: Seq<char>,
    chunks: Seq<Seq<u8>>,
)
    ensures
        forall|i: int|
            0 <= i < chunks.len() ==> {
                let step = #[trigger] relay_step(
                    pre,
                    session_id,
                    stream_id,
                    channel_key,
                    role,
                    Happening::Inbound(chunks[i]),
                );
                &&& step.state == pre
                &&& step.actions == seq![Act::Write { data: chunks[i] }]
                &&& goes_on(Happening::Inbound(chunks[i]))
            },
        inbound_each(pre, session_id, stream_id, channel_key, role, chunks).len() == chunks.len(),
        bytes_written(inbound_each(pre, session_id, stream_id, channel_key, role, chunks)) == bytes_in_order(
            chunks,
        ),
    decreases chunks.len(),
{
    if chunks.len() > 0 {
        lemma_inbound_chunks_are_written_in_order(pre, session_id, stream_id, channel_key, role, chunks.drop_last());
        let before = inbound_each(pre, session_id, stream_id, channel_key, role, chunks.drop_last());
        let all = inbound_each(pre, session_id, stream_id, channel_key, role, chunks);
        assert(all =~= before.push(Act::Write { data: chunks.last() }));
        assert(all.drop_last() =~= before);
    }
}

/// Dropping the inbound buffer of one stream leaves the buffer of every
/// other stream where it was.
pub proof fn lemma_other_buffers_stay(channels: Seq<(Seq<char>, ())>, channel_key: Seq<char>, other_key: Seq<char>)
    requires
        other_key != channel_key,
    ensures
        lookup(without(channels, channel_key), other_key) == lookup(channels, other_key),
{
    let left = without(channels, channel_key);
    match position(channels, channel_key) {
        Some(i) => {
            assert(0 <= i < channels.len() && channels[i].0 == channel_key);
            if position(channels, other_key) is Some {
                let j = position(channels, other_key)->0;
                assert(0 <= j < channels.len() && channels[j].0 == other_key);
                if j < i {
                    assert(left[j].0 == other_key);
                } else {
                    assert(left[j - 1].0 == other_key);
                }
                assert(position(left, other_key) is Some);
            }
            if position(left, other_key) is Some {
                let j = position(left, other_key)->0;
                assert(0 <= j < left.len() && left[j].0 == other_key);
                if j < i {
                    assert(channels[j].0 == other_key);
                } else {
                    assert(channels[j + 1].0 == other_key);
                }
                assert(position(channels, other_key) is Some);
            }
        },
        None => {},
    }
}

/// The relay of one stream leaves every other stream alone: whatever
/// happens to it, the state changes at most by the loss of its own inbound
/// buffer, and every frame it queues carries its own session, stream and
/// role.
pub proof fn lemma_relays_are_independent(
    pre: ClientModel,
    session_id: Seq<char>,
    stream_id: Seq<char>,
    channel_key: Seq<char>,
    role: Seq<char>,
    event: Happening,
    other_key: Seq<char>,
)
    requires
        other_key != channel_key,
    ensures
        lookup(
            relay_step(pre, session_id, stream_id, channel_key, role, event).state.data_channels,
            other_key,
        ) == lookup(pre.data_channels, other_key),
        relay_step(pre, session_id, stream_id, channel_key, role, event).state == (ClientModel {
            data_channels: relay_step(pre, session_id, stream_id, channel_key, role, event).state.data_channels,
            ..pre
        }),
        forall|i: int|
            0 <= i < relay_step(pre, session_id, stream_id, channel_key, role, event).actions.len() ==> match (
            #[trigger] relay_step(pre, session_id, stream_id, channel_key, role, event).actions[i]) {
                Act::Send(Frame::Data { session_id: s, stream_id: t, role: r, .. }) => s == session_id && t
                    == stream_id && r == role,
                Act::Send(Frame::StreamClose { session_id: s, stream_id: t }) => s == session_id && t == stream_id,
                Act::CloseChannel { channel_key: k } => k == channel_key,
                Act::Write { .. } => true,
                _ => false,
            },
{
    lemma_other_buffers_stay(pre.data_channels, channel_key, other_key);
}

} // verus!

//! The node's state machine: the handshake first, then one reply, or none,
//! for each inbound message.
use vstd::prelude::*;

use crate::message::{Message, MessageType, MessageTypeView, MessageView, reply_view};
use crate::wire::{
    DecodeError, RawMessage, RawMessageView, decode_message, encode_message, lemma_message_round_trip,
    message_of_raw, raw_of_message,
};

verus! {

/// Where a node stands in the protocol.
#[derive(Debug, Clone, Copy, PartialEq, Eq, Structural)]
pub enum NodeState {
    /// The handshake has not been received yet.
    Uninitialized,
    /// The handshake is done; requests are answered.
    Running,
}

/// Why a node stops.
#[derive(Debug, Clone, Copy, PartialEq, Eq, Structural)]
pub enum NodeError {
    /// The first message was not the `init` handshake.
    ExpectedInit,
    /// A message did not decode.
    Malformed(DecodeError),
}

/// A protocol node.
pub struct Node {
    pub state: NodeState,
}

/// The answer to the handshake message `m`: an `init_ok` reply where `m` is
/// an `init`, an error otherwise.
pub open spec fn handshake_view(m: MessageView) -> Result<MessageView, NodeError> {
    match m.body.message_type {
        MessageTypeView::Init => Ok(reply_view(m, MessageTypeView::InitOk)),
        _ => Err(NodeError::ExpectedInit),
    }
}

/// The answer of a running node to `m`: an `echo_ok` carrying the same
/// string for an `echo`, nothing for any other kind.
pub open spec fn response_view(m: MessageView) -> Option<MessageView> {
    match m.body.message_type {
        MessageTypeView::Echo(s) => Some(reply_view(m, MessageTypeView::EchoOk(s))),
        _ => None,
    }
}

/// The state after a node in state `s` receives `m`, and what it answers.
pub open spec fn step_view(s: NodeState, m: MessageView) -> (NodeState, Result<Option<MessageView>, NodeError>) {
    match s {
        NodeState::Uninitialized => match handshake_view(m) {
            Ok(r) => (NodeState::Running, Ok(Some(r))),
            Err(e) => (NodeState::Uninitialized, Err(e)),
        },
        NodeState::Running => (NodeState::Running, Ok(response_view(m))),
    }
}

/// Model of what `Node::step` returns.
pub open spec fn outcome_view(r: Result<Option<Message>, NodeError>) -> Result<Option<MessageView>, NodeError> {
    match r {
        Ok(Some(m)) => Ok(Some(m@)),
        Ok(None) => Ok(None),
        Err(e) => Err(e),
    }
}

/// The state after a node in state `s` receives the wire-form message
/// `raw`, and the wire form of what it answers. A message that does not
/// decode leaves the state as it was and stops the node.
pub open spec fn receive_view(s: NodeState, raw: RawMessageView) -> (
    NodeState,
    Result<Option<RawMessageView>, NodeError>,
) {
    match message_of_raw(raw) {
        Err(e) => (s, Err(NodeError::Malformed(e))),
        Ok(m) => {
            let (next, out) = step_view(s, m);
            (
                next,
                match out {
                    Ok(Some(r)) => Ok(Some(raw_of_message(r))),
                    Ok(None) => Ok(None),
                    Err(e) => Err(e),
                },
            )
        },
    }
}

/// Model of what `Node::receive` returns.
pub open spec fn raw_outcome_view(r: Result<Option<RawMessage>, NodeError>) -> Result<
    Option<RawMessageView>,
    NodeError,
> {
    match r {
        Ok(Some(m)) => Ok(Some(m@)),
        Ok(None) => Ok(None),
        Err(e) => Err(e),
    }
}

/// Answers the handshake message `m`.
pub fn handshake_reply(m: &Message) -> (r: Result<Message, NodeError>)
    ensures
        match r {
            Ok(reply) => handshake_view(m@) == Ok::<MessageView, NodeError>(reply@),
            Err(e) => handshake_view(m@) == Err::<MessageView, NodeError>(e),
        },
{
    match &m.body.message_type {
        MessageType::Init => Ok(m.reply_with(MessageType::InitOk)),
        _ => Err(NodeError::ExpectedInit),
    }
}

/// Answers `m` on a node whose handshake is done.
pub fn respond(m: &Message) -> (r: Option<Message>)
    ensures
        match r {
            Some(reply) => response_view(m@) == Some(reply@),
            None => response_view(m@) == None::<MessageView>,
        },
{
    match &m.body.message_type {
        MessageType::Echo { echo } => Some(m.reply_with(MessageType::EchoOk { echo: echo.clone() })),
        _ => None,
    }
}

impl Node {
    /// A node that waits for its handshake.
    pub fn new() -> (r: Node)
        ensures
            r.state == NodeState::Uninitialized,
    {
        Node { state: NodeState::Uninitialized }
    }

    /// Receives `m`: moves to the next state and returns the reply to send,
    /// if any, or the error on which the node stops.
    pub fn step(&mut self, m: &Message) -> (r: Result<Option<Message>, NodeError>)
        ensures
            step_view(old(self).state, m@) == (final(self).state, outcome_view(r)),
    {
        match self.state {
            NodeState::Uninitialized => match handshake_reply(m) {
                Ok(reply) => {
                    self.state = NodeState::Running;
                    Ok(Some(reply))
                },
                Err(e) => Err(e),
            },
            NodeState::Running => Ok(respond(m)),
        }
    }

    /// Receives the wire-form message `raw`: decodes it, steps, and returns
    /// the wire form of the reply to send, if any, or the error on which the
    /// node stops.
    pub fn receive(&mut self, raw: RawMessage) -> (r: Result<Option<RawMessage>, NodeError>)
        ensures
            receive_view(old(self).state, raw@) == (final(self).state, raw_outcome_view(r)),
    {
        let m = match decode_message(raw) {
            Ok(m) => m,
            Err(e) => return Err(NodeError::Malformed(e)),
        };
        match self.step(&m) {
            Ok(Some(reply)) => Ok(Some(encode_message(&reply))),
            Ok(None) => Ok(None),
            Err(e) => Err(e),
        }
    }
}

/// The handshake: a node that has not been initialised answers an `init`
/// with `msg_id` M by an `init_ok` addressed back to the sender, from the
/// recipient, with `in_reply_to` M, and is running afterwards.
pub proof fn lemma_handshake_reply(m: MessageView)
    requires
        m.body.message_type == MessageTypeView::Init,
    ensures
        ({
            let (s, out) = step_view(NodeState::Uninitialized, m);
            &&& s == NodeState::Running
            &&& out is Ok
            &&& out->Ok_0 is Some
            &&& out->Ok_0->Some_0.src == m.dest
            &&& out->Ok_0->Some_0.dest == m.src
            &&& out->Ok_0->Some_0.body.message_type == MessageTypeView::InitOk
            &&& out->Ok_0->Some_0.body.in_reply_to == Some(m.body.msg_id)
        }),
{
}

/// A running node answers an `echo` of S with `msg_id` M by an `echo_ok` of
/// the same S, with `in_reply_to` M, sender and recipient swapped.
pub proof fn lemma_echo_reply(m: MessageView, text: Seq<char>)
    requires
        m.body.message_type == MessageTypeView::Echo(text),
    ensures
        ({
            let (s, out) = step_view(NodeState::Running, m);
            &&& s == NodeState::Running
            &&& out is Ok
            &&& out->Ok_0 is Some
            &&& out->Ok_0->Some_0.src == m.dest
            &&& out->Ok_0->Some_0.dest == m.src
            &&& out->Ok_0->Some_0.body.message_type == MessageTypeView::EchoOk(text)
            &&& out->Ok_0->Some_0.body.in_reply_to == Some(m.body.msg_id)
        }),
{
}

/// The `echo` string passes through unchanged: a running node that receives
/// a wire-form `echo` request carrying S sends an answer whose `echo` is S,
/// and that answer decodes back to an `echo_ok` of S.
pub proof fn lemma_echo_pass_through(raw: RawMessageView, text: Seq<char>)
    requires
        raw.body.kind == "echo"@,
        raw.body.echo == Some(text),
    ensures
        ({
            let (s, out) = receive_view(NodeState::Running, raw);
            &&& s == NodeState::Running
            &&& out is Ok
            &&& out->Ok_0 is Some
            &&& out->Ok_0->Some_0.body.echo == Some(text)
            &&& message_of_raw(out->Ok_0->Some_0) is Ok
            &&& message_of_raw(out->Ok_0->Some_0)->Ok_0.body.message_type == MessageTypeView::EchoOk(text)
        }),
{
    reveal_strlit("init");
    reveal_strlit("init_ok");
    reveal_strlit("echo");
    assert("init"@[0] != "echo"@[0] && "init_ok"@[0] != "echo"@[0]);
    let m = message_of_raw(raw)->Ok_0;
    lemma_message_round_trip(response_view(m)->Some_0);
}

/// A message whose `type` tag names none of the four kinds stops the node,
/// in any state, with no answer sent.
pub proof fn lemma_unknown_type_stops(s: NodeState, raw: RawMessageView)
    requires
        raw.body.kind != "init"@,
        raw.body.kind != "init_ok"@,
        raw.body.kind != "echo"@,
        raw.body.kind != "echo_ok"@,
    ensures
        receive_view(s, raw) == (s, Err::<Option<RawMessageView>, NodeError>(
            NodeError::Malformed(DecodeError::UnknownType),
        )),
{
}

/// Handshake traffic after the handshake is ignored: a running node answers
/// an `init` or an `init_ok` with nothing, and keeps running.
pub proof fn lemma_handshake_traffic_ignored(m: MessageView)
    requires
        m.body.message_type == MessageTypeView::Init || m.body.message_type == MessageTypeView::InitOk,
    ensures
        step_view(NodeState::Running, m) == (NodeState::Running, Ok::<Option<MessageView>, NodeError>(None)),
{
}

/// A running node answers an `echo_ok` with nothing, and keeps running.
pub proof fn lemma_echo_ok_ignored(m: MessageView, text: Seq<char>)
    requires
        m.body.message_type == MessageTypeView::EchoOk(text),
    ensures
        step_view(NodeState::Running, m) == (NodeState::Running, Ok::<Option<MessageView>, NodeError>(None)),
{
}

} // verus!

//! The flat wire form of a message and the rules that decode it.
//!
//! On the wire a body is one JSON object: a `type` tag, the payload field
//! `echo` where the kind has one, `msg_id` and an optional `in_reply_to`.
//! `RawBody` holds those fields as they were read; decoding checks the tag
//! against the four kinds and takes the payload that the kind needs.
use vstd::prelude::*;

use crate::message::{Body, BodyView, Message, MessageType, MessageTypeView, MessageView, opt_int_view};

verus! {

/// Why a wire-form body does not decode to a message.
#[derive(Debug, Clone, Copy, PartialEq, Eq, Structural)]
pub enum DecodeError {
    /// The `type` tag names none of the four kinds.
    UnknownType,
    /// The kind carries an `echo` string and none was given.
    MissingEcho,
}

/// A body as read from the wire, before its tag is checked.
#[derive(Debug)]
pub struct RawBody {
    pub kind: String,
    pub echo: Option<String>,
    pub msg_id: i128,
    pub in_reply_to: Option<i128>,
}

/// An envelope whose body is still in wire form.
#[derive(Debug)]
pub struct RawMessage {
    pub src: String,
    pub dest: String,
    pub body: RawBody,
}

/// Mathematical model of a wire-form body.
pub struct RawBodyView {
    pub kind: Seq<char>,
    pub echo: Option<Seq<char>>,
    pub msg_id: int,
    pub in_reply_to: Option<int>,
}

/// Mathematical model of a wire-form envelope.
pub struct RawMessageView {
    pub src: Seq<char>,
    pub dest: Seq<char>,
    pub body: RawBodyView,
}

/// Model of an optional string.
pub open spec fn opt_string_view(o: Option<String>) -> Option<Seq<char>> {
    match o {
        Some(s) => Some(s@),
        None => None,
    }
}

impl View for RawBody {
    type V = RawBodyView;

    open spec fn view(&self) -> RawBodyView {
        RawBodyView {
            kind: self.kind@,
            echo: opt_string_view(self.echo),
            msg_id: self.msg_id as int,
            in_reply_to: opt_int_view(self.in_reply_to),
        }
    }
}

impl View for RawMessage {
    type V = RawMessageView;

    open spec fn view(&self) -> RawMessageView {
        RawMessageView { src: self.src@, dest: self.dest@, body: self.body@ }
    }
}

/// The kind named by the tag `kind`, with the payload `echo` where the kind
/// carries one. A payload given to a kind without one is ignored.
pub open spec fn type_of_tag(kind: Seq<char>, echo: Option<Seq<char>>) -> Result<MessageTypeView, DecodeError> {
    if kind == "init"@ {
        Ok(MessageTypeView::Init)
    } else if kind == "init_ok"@ {
        Ok(MessageTypeView::InitOk)
    } else if kind == "echo"@ {
        match echo {
            Some(s) => Ok(MessageTypeView::Echo(s)),
            None => Err(DecodeError::MissingEcho),
        }
    } else if kind == "echo_ok"@ {
        match echo {
            Some(s) => Ok(MessageTypeView::EchoOk(s)),
            None => Err(DecodeError::MissingEcho),
        }
    } else {
        Err(DecodeError::UnknownType)
    }
}

/// The body that a wire-form body decodes to.
pub open spec fn body_of_raw(b: RawBodyView) -> Result<BodyView, DecodeError> {
    match type_of_tag(b.kind, b.echo) {
        Ok(t) => Ok(BodyView { message_type: t, msg_id: b.msg_id, in_reply_to: b.in_reply_to }),
        Err(e) => Err(e),
    }
}

/// The message that a wire-form envelope decodes to.
pub open spec fn message_of_raw(m: RawMessageView) -> Result<MessageView, DecodeError> {
    match body_of_raw(m.body) {
        Ok(b) => Ok(MessageView { src: m.src, dest: m.dest, body: b }),
        Err(e) => Err(e),
    }
}

/// The tag of a kind on the wire.
pub open spec fn tag_of_type(t: MessageTypeView) -> Seq<char> {
    match t {
        MessageTypeView::Init => "init"@,
        MessageTypeView::InitOk => "init_ok"@,
        MessageTypeView::Echo(_) => "echo"@,
        MessageTypeView::EchoOk(_) => "echo_ok"@,
    }
}

/// The payload of a kind on the wire.
pub open spec fn echo_of_type(t: MessageTypeView) -> Option<Seq<char>> {
    match t {
        MessageTypeView::Echo(s) => Some(s),
        MessageTypeView::EchoOk(s) => Some(s),
        _ => None,
    }
}

/// The wire form of a body.
pub open spec fn raw_of_body(b: BodyView) -> RawBodyView {
    RawBodyView {
        kind: tag_of_type(b.message_type),
        echo: echo_of_type(b.message_type),
        msg_id: b.msg_id,
        in_reply_to: b.in_reply_to,
    }
}

/// The wire form of a message.
pub open spec fn raw_of_message(m: MessageView) -> RawMessageView {
    RawMessageView { src: m.src, dest: m.dest, body: raw_of_body(m.body) }
}

/// Decodes a tag and its optional payload into a message kind.
pub fn decode_message_type(kind: String, echo: Option<String>) -> (r: Result<MessageType, DecodeError>)
    ensures
        match r {
            Ok(t) => type_of_tag(kind@, opt_string_view(echo)) == Ok::<MessageTypeView, DecodeError>(t@),
            Err(e) => type_of_tag(kind@, opt_string_view(echo)) == Err::<MessageTypeView, DecodeError>(e),
        },
{
    if kind == "init".to_owned() {
        Ok(MessageType::Init)
    } else if kind == "init_ok".to_owned() {
        Ok(MessageType::InitOk)
    } else if kind == "echo".to_owned() {
        match echo {
            Some(s) => Ok(MessageType::Echo { echo: s }),
            None => Err(DecodeError::MissingEcho),
        }
    } else if kind == "echo_ok".to_owned() {
        match echo {
            Some(s) => Ok(MessageType::EchoOk { echo: s }),
            None => Err(DecodeError::MissingEcho),
        }
    } else {
        Err(DecodeError::UnknownType)
    }
}

/// Decodes a wire-form body.
pub fn decode_body(raw: RawBody) -> (r: Result<Body, DecodeError>)
    ensures
        match r {
            Ok(b) => body_of_raw(raw@) == Ok::<BodyView, DecodeError>(b@),
            Err(e) => body_of_raw(raw@) == Err::<BodyView, DecodeError>(e),
        },
{
    let RawBody { kind, echo, msg_id, in_reply_to } = raw;
    match decode_message_type(kind, echo) {
        Ok(message_type) => Ok(Body { message_type, msg_id, in_reply_to }),
        Err(e) => Err(e),
    }
}

/// Decodes a wire-form envelope: the body is decoded, sender and recipient
/// are kept as they are.
pub fn decode_message(raw: RawMessage) -> (r: Result<Message, DecodeError>)
    ensures
        match r {
            Ok(m) => message_of_raw(raw@) == Ok::<MessageView, DecodeError>(m@),
            Err(e) => message_of_raw(raw@) == Err::<MessageView, DecodeError>(e),
        },
{
    let RawMessage { src, dest, body } = raw;
    match decode_body(body) {
        Ok(body) => Ok(Message { src, dest, body }),
        Err(e) => Err(e),
    }
}

/// The wire form of a body.
pub fn encode_body(b: &Body) -> (r: RawBody)
    ensures
        r@ == raw_of_body(b@),
{
    let (kind, echo) = match &b.message_type {
        MessageType::Init => ("init".to_owned(), None),
        MessageType::InitOk => ("init_ok".to_owned(), None),
        MessageType::Echo { echo } => ("echo".to_owned(), Some(echo.clone())),
        MessageType::EchoOk { echo } => ("echo_ok".to_owned(), Some(echo.clone())),
    };
    RawBody { kind, echo, msg_id: b.msg_id, in_reply_to: b.in_reply_to }
}

/// The wire form of a message.
pub fn encode_message(m: &Message) -> (r: RawMessage)
    ensures
        r@ == raw_of_message(m@),
{
    RawMessage { src: m.src.clone(), dest: m.dest.clone(), body: encode_body(&m.body) }
}

/// Decoding the wire form of any body gives that body back: the tag names
/// its kind and the payload, the `echo` string included, is kept unchanged.
pub proof fn lemma_body_round_trip(b: BodyView)
    ensures
        body_of_raw(raw_of_body(b)) == Ok::<BodyView, DecodeError>(b),
{
    reveal_strlit("init");
    reveal_strlit("init_ok");
    reveal_strlit("echo");
    reveal_strlit("echo_ok");
    assert("init"@.len() != "init_ok"@.len());
    assert("echo"@[0] != "init"@[0] && "echo"@[0] != "init_ok"@[0]);
    assert("echo_ok"@[0] != "init"@[0] && "echo_ok"@[0] != "init_ok"@[0]);
    assert("echo_ok"@.len() != "echo"@.len());
}

/// Decoding the wire form of any message gives that message back.
pub proof fn lemma_message_round_trip(m: MessageView)
    ensures
        message_of_raw(raw_of_message(m)) == Ok::<MessageView, DecodeError>(m),
{
    lemma_body_round_trip(m.body);
}

} // verus!

//! Messages of the protocol: an envelope with sender and recipient, and a
//! body that carries one of four message kinds beside its correlation ids.
use vstd::prelude::*;

verus! {

/// The kind of a message body, with its payload.
#[derive(Debug)]
pub enum MessageType {
    /// The handshake request.
    Init,
    /// The reply to the handshake.
    InitOk,
    /// A request to echo `echo` back.
    Echo { echo: String },
    /// The reply to an echo request, carrying the same string.
    EchoOk { echo: String },
}

/// A message body: its kind, its own id and, on a reply, the id of the
/// message it answers.
#[derive(Debug)]
pub struct Body {
    pub message_type: MessageType,
    pub msg_id: i128,
    pub in_reply_to: Option<i128>,
}

/// An envelope: the sending node, the receiving node and the body.
#[derive(Debug)]
pub struct Message {
    pub src: String,
    pub dest: String,
    pub body: Body,
}

/// Mathematical model of a message kind.
pub enum MessageTypeView {
    Init,
    InitOk,
    Echo(Seq<char>),
    EchoOk(Seq<char>),
}

/// Mathematical model of a body.
pub struct BodyView {
    pub message_type: MessageTypeView,
    pub msg_id: int,
    pub in_reply_to: Option<int>,
}

/// Mathematical model of a message.
pub struct MessageView {
    pub src: Seq<char>,
    pub dest: Seq<char>,
    pub body: BodyView,
}

/// Model of an optional id.
pub open spec fn opt_int_view(o: Option<i128>) -> Option<int> {
    match o {
        Some(x) => Some(x as int),
        None => None,
    }
}

impl View for MessageType {
    type V = MessageTypeView;

    open spec fn view(&self) -> MessageTypeView {
        match self {
            MessageType::Init => MessageTypeView::Init,
            MessageType::InitOk => MessageTypeView::InitOk,
            MessageType::Echo { echo } => MessageTypeView::Echo(echo@),
            MessageType::EchoOk { echo } => MessageTypeView::EchoOk(echo@),
        }
    }
}

impl View for Body {
    type V = BodyView;

    open spec fn view(&self) -> BodyView {
        BodyView {
            message_type: self.message_type@,
            msg_id: self.msg_id as int,
            in_reply_to: opt_int_view(self.in_reply_to),
        }
    }
}

impl View for Message {
    type V = MessageView;

    open spec fn view(&self) -> MessageView {
        MessageView { src: self.src@, dest: self.dest@, body: self.body@ }
    }
}

/// The reply to `m` with body kind `t`: sender and recipient swapped, the
/// inbound id both answered and reused as the reply's own id.
pub open spec fn reply_view(m: MessageView, t: MessageTypeView) -> MessageView {
    MessageView {
        src: m.dest,
        dest: m.src,
        body: BodyView { message_type: t, msg_id: m.body.msg_id, in_reply_to: Some(m.body.msg_id) },
    }
}

impl Message {
    /// Builds the reply to `self` that carries `message_type`.
    pub fn reply_with(&self, message_type: MessageType) -> (r: Message)
        ensures
            r@ == reply_view(self@, message_type@),
    {
        Message {
            src: self.dest.clone(),
            dest: self.src.clone(),
            body: Body {
                message_type,
                msg_id: self.body.msg_id,
                in_reply_to: Some(self.body.msg_id),
            },
        }
    }
}

} // verus!

use echo_node::message::{Body, Message, MessageType};
use echo_node::node::{handshake_reply, respond, Node, NodeError, NodeState};
use echo_node::wire::{
    decode_body, decode_message, decode_message_type, encode_body, encode_message, DecodeError, RawBody,
    RawMessage,
};

fn raw(src: &str, dest: &str, kind: &str, echo: Option<&str>, msg_id: i128) -> RawMessage {
    RawMessage {
        src: src.to_string(),
        dest: dest.to_string(),
        body: RawBody {
            kind: kind.to_string(),
            echo: echo.map(|s| s.to_string()),
            msg_id,
            in_reply_to: None,
        },
    }
}

fn message(src: &str, dest: &str, message_type: MessageType, msg_id: i128) -> Message {
    Message {
        src: src.to_string(),
        dest: dest.to_string(),
        body: Body { message_type, msg_id, in_reply_to: None },
    }
}

fn running_node() -> Node {
    let mut node = Node::new();
    node.receive(raw("c1", "n1", "init", None, 1)).unwrap().unwrap();
    node
}

#[test]
fn init_then_echo_end_to_end() {
    let mut node = Node::new();
    assert_eq!(node.state, NodeState::Uninitialized);

    let first = node.receive(raw("c1", "n1", "init", None, 1)).unwrap().unwrap();
    assert_eq!(first.src, "n1");
    assert_eq!(first.dest, "c1");
    assert_eq!(first.body.kind, "init_ok");
    assert_eq!(first.body.echo, None);
    assert_eq!(first.body.msg_id, 1);
    assert_eq!(first.body.in_reply_to, Some(1));
    assert_eq!(node.state, NodeState::Running);

    let second = node.receive(raw("c1", "n1", "echo", Some("hello"), 2)).unwrap().unwrap();
    assert_eq!(second.src, "n1");
    assert_eq!(second.dest, "c1");
    assert_eq!(second.body.kind, "echo_ok");
    assert_eq!(second.body.echo, Some("hello".to_string()));
    assert_eq!(second.body.msg_id, 2);
    assert_eq!(second.body.in_reply_to, Some(2));
    assert_eq!(node.state, NodeState::Running);
}

#[test]
fn handshake_swaps_addresses_and_answers_id() {
    let m = message("client-7", "node-3", MessageType::Init, 41);
    let reply = handshake_reply(&m).unwrap();
    assert_eq!(reply.src, "node-3");
    assert_eq!(reply.dest, "client-7");
    assert!(matches!(reply.body.message_type, MessageType::InitOk));
    assert_eq!(reply.body.msg_id, 41);
    assert_eq!(reply.body.in_reply_to, Some(41));
}

#[test]
fn handshake_requires_init() {
    let m = message("c1", "n1", MessageType::Echo { echo: "x".to_string() }, 1);
    assert_eq!(handshake_reply(&m).unwrap_err(), NodeError::ExpectedInit);
    let m = message("c1", "n1", MessageType::InitOk, 1);
    assert_eq!(handshake_reply(&m).unwrap_err(), NodeError::ExpectedInit);
}

#[test]
fn first_message_other_than_init_stops_node() {
    let mut node = Node::new();
    let r = node.receive(raw("c1", "n1", "echo", Some("hi"), 1));
    assert_eq!(r.unwrap_err(), NodeError::ExpectedInit);
    assert_eq!(node.state, NodeState::Uninitialized);

    let mut node = Node::new();
    let r = node.receive(raw("c1", "n1", "echo_ok", Some("hi"), 1));
    assert_eq!(r.unwrap_err(), NodeError::ExpectedInit);
}

#[test]
fn echo_reply_keeps_string() {
    let m = message("c2", "n1", MessageType::Echo { echo: "abc".to_string() }, 9);
    let reply = respond(&m).unwrap();
    assert_eq!(reply.src, "n1");
    assert_eq!(reply.dest, "c2");
    match reply.body.message_type {
        MessageType::EchoOk { echo } => assert_eq!(echo, "abc"),
        other => panic!("unexpected reply kind {:?}", other),
    }
    assert_eq!(reply.body.msg_id, 9);
    assert_eq!(reply.body.in_reply_to, Some(9));
}

#[test]
fn echo_empty_string() {
    let mut node = running_node();
    let reply = node.receive(raw("c1", "n1", "echo", Some(""), 5)).unwrap().unwrap();
    assert_eq!(reply.body.kind, "echo_ok");
    assert_eq!(reply.body.echo, Some(String::new()));
    assert_eq!(reply.body.in_reply_to, Some(5));
}

#[test]
fn echo_quotes_and_unicode_pass_through() {
    let text = "say \"hi\" \\ to \u{00e9}l\u{00e8}ve \u{1f600}\n\ttab";
    let mut node = running_node();
    let reply = node.receive(raw("c1", "n1", "echo", Some(text), 6)).unwrap().unwrap();
    assert_eq!(reply.body.echo.as_deref(), Some(text));
    let decoded = decode_message(reply).unwrap();
    match decoded.body.message_type {
        MessageType::EchoOk { echo } => assert_eq!(echo, text),
        other => panic!("unexpected reply kind {:?}", other),
    }
}

#[test]
fn large_message_ids_are_kept() {
    let mut node = running_node();
    let id: i128 = i128::MAX;
    let reply = node.receive(raw("c1", "n1", "echo", Some("x"), id)).unwrap().unwrap();
    assert_eq!(reply.body.msg_id, id);
    assert_eq!(reply.body.in_reply_to, Some(id));
}

#[test]
fn init_after_handshake_is_ignored() {
    let mut node = running_node();
    assert!(node.receive(raw("c1", "n1", "init", None, 3)).unwrap().is_none());
    assert_eq!(node.state, NodeState::Running);
    assert!(node.receive(raw("c1", "n1", "init_ok", None, 4)).unwrap().is_none());
    assert_eq!(node.state, NodeState::Running);
    let reply = node.receive(raw("c1", "n1", "echo", Some("still here"), 5)).unwrap().unwrap();
    assert_eq!(reply.body.echo, Some("still here".to_string()));
}

#[test]
fn echo_ok_is_ignored() {
    let mut node = running_node();
    assert!(node.receive(raw("c1", "n1", "echo_ok", Some("x"), 3)).unwrap().is_none());
    assert_eq!(node.state, NodeState::Running);
    let m = message("c1", "n1", MessageType::EchoOk { echo: "x".to_string() }, 3);
    assert!(respond(&m).is_none());
}

#[test]
fn unknown_type_stops_node() {
    let mut node = running_node();
    let r = node.receive(raw("c1", "n1", "bogus", None, 3));
    assert_eq!(r.unwrap_err(), NodeError::Malformed(DecodeError::UnknownType));

    let mut node = Node::new();
    let r = node.receive(raw("c1", "n1", "bogus", None, 1));
    assert_eq!(r.unwrap_err(), NodeError::Malformed(DecodeError::UnknownType));
    assert_eq!(node.state, NodeState::Uninitialized);
}

#[test]
fn tags_are_case_sensitive() {
    assert_eq!(decode_message_type("Echo".to_string(), Some("x".to_string())).unwrap_err(), DecodeError::UnknownType);
    assert_eq!(decode_message_type("".to_string(), None).unwrap_err(), DecodeError::UnknownType);
    assert_eq!(decode_message_type("init ".to_string(), None).unwrap_err(), DecodeError::UnknownType);
}

#[test]
fn echo_without_payload_is_malformed() {
    assert_eq!(decode_message_type("echo".to_string(), None).unwrap_err(), DecodeError::MissingEcho);
    assert_eq!(decode_message_type("echo_ok".to_string(), None).unwrap_err(), DecodeError::MissingEcho);
    let mut node = running_node();
    let r = node.receive(raw("c1", "n1", "echo", None, 2));
    assert_eq!(r.unwrap_err(), NodeError::Malformed(DecodeError::MissingEcho));
}

#[test]
fn payload_on_init_is_ignored() {
    let t = decode_message_type("init".to_string(), Some("extra".to_string())).unwrap();
    assert!(matches!(t, MessageType::Init));
    let t = decode_message_type("init_ok".to_string(), Some("extra".to_string())).unwrap();
    assert!(matches!(t, MessageType::InitOk));
}

#[test]
fn decode_keeps_ids_and_addresses() {
    let mut r = raw("a", "b", "echo", Some("z"), 12);
    r.body.in_reply_to = Some(11);
    let m = decode_message(r).unwrap();
    assert_eq!(m.src, "a");
    assert_eq!(m.dest, "b");
    assert_eq!(m.body.msg_id, 12);
    assert_eq!(m.body.in_reply_to, Some(11));
}

#[test]
fn encode_then_decode_round_trip() {
    let kinds = vec![
        MessageType::Init,
        MessageType::InitOk,
        MessageType::Echo { echo: "e".to_string() },
        MessageType::EchoOk { echo: "f".to_string() },
    ];
    let tags = ["init", "init_ok", "echo", "echo_ok"];
    for (kind, tag) in kinds.into_iter().zip(tags) {
        let body = Body { message_type: kind, msg_id: -3, in_reply_to: Some(7) };
        let encoded = encode_body(&body);
        assert_eq!(encoded.kind, tag);
        let decoded = decode_body(encoded).unwrap();
        assert_eq!(format!("{:?}", decoded), format!("{:?}", body));
    }
    let m = message("s", "d", MessageType::Echo { echo: "q".to_string() }, 1);
    let back = decode_message(encode_message(&m)).unwrap();
    assert_eq!(format!("{:?}", back), format!("{:?}", m));
}

//! A minimal echo node for a line-delimited JSON message-passing protocol.
//!
//! The library holds the protocol itself: the tagged union of message
//! bodies, its flat wire form and the rules that decode it, and the node's
//! state machine that answers each inbound message. Reading and writing the
//! standard streams, and turning JSON text into the wire form, is left to
//! the program around it.
pub mod message;
pub mod node;
pub mod wire;

//! The signalling and session core of a WebRTC selective-forwarding server.
//!
//! A client negotiates its media transports with the server over a message
//! channel. This crate holds what the server decides: the registry of
//! sessions, the state machine of an offer/answer exchange, the discipline
//! that serializes work on one session and leaves sessions independent of
//! each other, and the wire format of the messages. The peer connections and
//! the sockets stay with the caller, who does what the engine asks for and
//! reports back.

pub mod error;
pub mod ident;
pub mod json;
pub mod negotiation;
pub mod sdp;
pub mod sfu;
pub mod signalling;
pub mod table;

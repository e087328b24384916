//! A unified, pull-based HTTP message body.
//!
//! Upper-layer HTTP code depends on exactly one body type, [`body::HttpBody`],
//! and one consumption contract: call [`body::HttpBody::poll_frame`] until it
//! reports exhaustion.  Construction code picks whichever source fits the call
//! site: an already-framed inbound body, an in-memory byte or text payload, a
//! chunked file reader, or a QUIC receive stream in either peer role.
//!
//! The body value itself holds the protocol state: which variant is active,
//! which frames are still pending, and whether the source has terminated.
//! The runtime binding that owns the actual handles polls them, reports each
//! result as a [`frame::SourceEvent`], and receives the next
//! [`frame::PollOutcome`] to hand to the consumer.

pub mod body;
pub mod frame;
pub mod laws;

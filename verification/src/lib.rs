//! Keeps several viewers of one media stream in sync: a coordinator owns the
//! single shared playback state and the set of live sessions, fans every
//! accepted update out to all other sessions, and answers state queries; a
//! per-connection state machine drives registration, heartbeat liveness and
//! the wire protocol.

pub mod codec;
pub mod server;
pub mod client;

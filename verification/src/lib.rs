//! A registry of locally connected workspace sessions and the rules by which
//! messages are routed between a control application and those sessions.

pub mod channel;
pub mod connection;
pub mod json;
pub mod laws;
pub mod message;
pub mod monitor;
pub mod registry;
pub mod router;
pub mod session;

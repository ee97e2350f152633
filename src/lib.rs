//! Per-connection protocol engine of a WebPush server.
//!
//! The connection is driven by an explicit state machine (`client`), which
//! hands requests for the data plane to a call bridge (`call`) and exchanges
//! typed frames with the websocket peer (`protocol`).

pub mod uaid;
pub mod protocol;
pub mod server;
pub mod call;
pub mod acks;
pub mod agent;
pub mod clock;
pub mod event;
pub mod client;
pub mod machine;

//! Push-confirmed two-factor authentication broker: the wire protocol, the
//! challenge-response handshake, the per-connection state machine, the
//! verification session and the login-side polling policy.
pub mod protocol;
pub mod crypto;
pub mod handshake;
pub mod broker;
pub mod session;
pub mod auth_flow;
pub mod push;

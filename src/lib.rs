//! Request admission for a session-based web backend: a fixed-window rate
//! limiter over session attributes, the identity gate in front of protected
//! routes, and the login / logout / who-am-i lifecycle of a session.

pub mod session;
pub mod rate_limit;
pub mod store;
pub mod auth;
pub mod laws;
pub mod dto;
pub mod usecases;

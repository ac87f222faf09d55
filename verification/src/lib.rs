//! Verified core of a small command-driven backend: command routing and
//! dispatch, an explicit application context holding the resolved data
//! directory, the scoped file-storage semantics, the HTTP-proxy reply
//! mapping, and the stateless demo commands.

pub mod demo;
pub mod dispatch;
pub mod files;
pub mod http;
pub mod setup;
pub mod state;
pub mod store;

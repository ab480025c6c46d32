//! A small JSON-RPC server core that talks to a host process over
//! line-delimited JSON: requests come in one per line, responses and
//! fire-and-forget events go out one per line.

pub mod json;
pub mod lines;
pub mod protocol;
pub mod server;

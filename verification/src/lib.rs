//! An interception-capable JSON-RPC 2.0 proxy engine.
//!
//! The crate models captured JSON-RPC traffic (messages, exchanges, pending
//! intercepted requests), pairs requests with responses, applies operator
//! decisions, and classifies malformed upstream replies. The HTTP transport
//! and the terminal front end live outside the library and exchange plain
//! values with it.

pub mod json;
pub mod model;
pub mod text;
pub mod app;
pub mod store;
pub mod jsontext;
pub mod rpc;
pub mod pending;
pub mod forward;
pub mod handler;
pub mod keybinds;
pub mod details;

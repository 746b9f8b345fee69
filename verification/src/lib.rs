//! Client-side library for the Agent-to-Agent (A2A) protocol.
//!
//! The crate models the protocol vocabulary (messages, tasks, agent cards,
//! operations), the wire codecs (plain JSON, JSON-RPC 2.0, server-sent
//! events), the request-building and error-mapping service, the middleware
//! layers (validation, auth injection), and the WebSocket multiplexer's
//! bookkeeping, all with machine-checked contracts.

pub mod agent;
pub mod agentcodec;
pub mod auth;
pub mod builder;
pub mod client;
pub mod codec;
pub mod error;
pub mod json;
pub mod jsoncodec;
pub mod jsonrpc;
pub mod jsontext;
pub mod message;
pub mod mux;
pub mod operation;
pub mod request;
pub mod response;
pub mod service;
pub mod sse;
pub mod task;
pub mod transport;
pub mod validation;

pub use json::JsonValue;

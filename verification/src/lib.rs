//! Core of an asynchronous MQTT 3.1.1 client: packet model, packet
//! identifier allocation, request/response correlation, keep-alive
//! scheduling, and the framing of the inbound byte stream.
//!
//! The modules here hold the session logic and its proofs. The
//! byte-level codec is delegated to the `mqttrs` crate behind a small
//! set of trusted wrappers in `codec`. Network transport, TLS and task
//! plumbing live outside this crate.

pub mod errors;
pub mod packet;
pub mod pid_pool;
pub mod session;
pub mod client_core;
pub mod codec;
pub mod wire;

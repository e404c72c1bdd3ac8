//! An extensible command-line host: a core process composes independently
//! loaded capability modules into one command surface and dispatches to the
//! selected one.  The flagship capability is a protocol-aware relay that
//! tunnels a local TCP port to a port inside a cluster-managed pod while
//! classifying the traffic it forwards.
//!
//! This crate holds the verified logic: the capability registry and CLI
//! composition, the protocol classifier, target resolution, configuration
//! override rules, and the relay model.  Process I/O (dynamic loading,
//! sockets, the cluster API, signals) lives in the host program around it.

pub mod classify;
pub mod host;
pub mod k8s_native_port_forward;
pub mod k8s_port_forward;
pub mod ollama_chat;
pub mod protocol;
pub mod proxy_plugin;
pub mod relay;
pub mod strutil;

use vstd::prelude::*;

verus! {

/// How far a verified relay reads per socket operation: one chunk.
pub const CHUNK_SIZE: usize = 8192;

} // verus!

//! Host-side command-stream engine of a paravirtualized GPU bridge: the wire
//! protocol, the control region and command ring, the resource table, the
//! replay engine and the decisions of the service loop.
//!
//! The native device, the shared-memory mapping and the control pipe stay
//! outside: the engine lists the native calls to make, and the service loop's
//! decisions are taken here from what the caller observed.

pub mod config;
pub mod control;
pub mod ipc;
pub mod laws;
pub mod ops;
pub mod presentation;
pub mod processor;
pub mod protocol;
pub mod resources;
pub mod ring;
pub mod service;
pub mod wire;

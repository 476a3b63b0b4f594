//! Local control plane of a desktop client that fronts a set of worker
//! binaries: a port registry, a process supervisor, the lifecycle of the
//! local relay server, and the engine that reassembles chunked uploads.
//!
//! Everything here is a function on plain values. The program around the
//! library performs the I/O (sockets, subprocesses, files) and reports what
//! happened as events.

pub mod backend;
pub mod context;
pub mod delivery;
pub mod error;
pub mod listing;
pub mod messages;
pub mod platform;
pub mod ports;
pub mod reassembly;
pub mod relay;
pub mod routes;
pub mod supervisor;
pub mod text;
pub mod types;
pub mod upload;
pub mod xorname;

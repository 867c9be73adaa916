//! Lifecycle controller and diagnostic layer for integration tests that run
//! against a real, ephemeral database server.
//!
//! The crate holds the verified core of that controller: the one-time
//! bootstrap state machine, the session-keyed log demultiplexer and its
//! readiness protocol, the session-identity encoding shared with the server's
//! log prefix, the structured-error enrichment wrapper, and the per-invocation
//! outcome classifier.  Everything that touches the operating system — child
//! processes, sockets, files, threads, environment variables — lives outside
//! this crate and hands plain values in and out.

pub mod ansi;
pub mod bootstrap;
pub mod cargoargs;
pub mod classify;
pub mod conf;
pub mod dberror;
pub mod demux;
pub mod errors;
pub mod logline;
pub mod logmap;
pub mod numtext;
pub mod provision;
pub mod session;
pub mod strutil;
pub mod supervisor;

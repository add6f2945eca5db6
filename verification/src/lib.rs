//! Supervision logic for a single sidecar worker process.
//!
//! The worker announces the port it listens on with one line of text on its
//! standard output. This crate holds the rules around that handshake: how a
//! line is recognised, how the discovered port is kept and read, and how the
//! handle of the worker is given up exactly once when it has to be killed.
//! Spawning, reading the streams and signalling the process are left to the
//! caller, who feeds lines in and carries decisions out.

pub mod discovery;
pub mod registry;
pub mod drain;
pub mod commands;
pub mod launch;

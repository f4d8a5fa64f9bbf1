//! Terminal session management for a desktop shell companion.
//!
//! The library tracks interactive shell sessions: a registry of live
//! sessions keyed by id, the bookkeeping for spawning a login shell on a
//! pseudo-terminal, the per-session output stream with its exit
//! notification, and the command surface a host calls (write, resize,
//! kill, status, list, find-by-project). The host performs the actual
//! terminal I/O; every decision about what to do and what the registry
//! looks like afterwards is made, and proved, here.

pub mod reader;
pub mod spawn;
pub mod state;
pub mod terminal;

//! Verified core of a low-level container runtime.
//!
//! The crate holds the decisions of the runtime and none of its input or
//! output: the handshake that brings a container up across three cooperating
//! processes, the lifecycle rules of a container, the table of container
//! records, and the choice of the runtime's root directory. A caller performs
//! the pipe, process and file operations and hands their outcomes in as plain
//! values.

pub mod channel;
pub mod container;
pub mod dispatcher;
pub mod error;
pub mod lifecycle;
pub mod message;
pub mod process;
pub mod root;
pub mod store;

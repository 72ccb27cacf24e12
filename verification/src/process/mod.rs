//! The roles of a bootstrap: what the main process, and the child that turns
//! into the container's init process, each decide at every stage of the
//! handshake.

pub mod child;
pub mod main_process;
pub mod parent;
